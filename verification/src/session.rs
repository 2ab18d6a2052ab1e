//! The per-request database session flow, as a state machine.
//!
//! Each index request opens its own session: connect, hand the session
//! driver off for detached execution, prepare the fixed statement, execute
//! it, and answer. The caller performs the outside work (the network I/O)
//! and feeds the outcome of each step back in as a [`DbEvent`]; this module
//! decides, for every state and event, the next state and the next
//! [`Action`]. Every database failure is mapped to an internal-error
//! response that names the failing step; a driver outcome is discarded.

use vstd::prelude::*;
use crate::http::{
    Response, STATUS_INTERNAL_ERROR, STATUS_OK, hello_body, hello_response,
};

verus! {

/// The fixed connection descriptor the index handler uses: a transport
/// target and the session credentials.
pub struct ConnectParams {
    pub host: String,
    pub port: u16,
    pub user: String,
    pub password: String,
    pub dbname: String,
}

/// The descriptor is hard-coded: every session goes to the same target
/// with the same credentials.
pub open spec fn connect_params_fixed(p: ConnectParams) -> bool {
    &&& p.host@ == "127.0.0.1"@
    &&& p.port == 8090
    &&& p.user@ == "test"@
    &&& p.password@ == "test"@
    &&& p.dbname@ == "test"@
}

/// Build the fixed connection descriptor.
pub fn connect_params() -> (p: ConnectParams)
    ensures
        connect_params_fixed(p),
{
    ConnectParams {
        host: "127.0.0.1".to_owned(),
        port: 8090,
        user: "test".to_owned(),
        password: "test".to_owned(),
        dbname: "test".to_owned(),
    }
}

/// The text of the one statement every session prepares.
pub open spec fn statement_text() -> Seq<char> {
    "SELECT id FROM test"@
}

/// Build the fixed statement text.
pub fn statement_sql() -> (s: String)
    ensures
        s@ == statement_text(),
{
    "SELECT id FROM test".to_owned()
}

/// The step of the session flow that failed, named in the error response
/// so that a connection failure is distinguishable from a preparation or
/// an execution failure.
#[derive(Clone, Copy, PartialEq, Eq, Structural, Debug)]
pub enum DbFault {
    Connect,
    Prepare,
    Execute,
}

/// The body of the internal-error response for each fault.
pub open spec fn fault_body(f: DbFault) -> Seq<char> {
    match f {
        DbFault::Connect => "error: connect"@,
        DbFault::Prepare => "error: prepare"@,
        DbFault::Execute => "error: execute"@,
    }
}

/// The internal-error response that names the failing step.
pub fn fault_response(f: DbFault) -> (r: Response)
    ensures
        r.status == STATUS_INTERNAL_ERROR,
        r.body@ == fault_body(f),
{
    let body: String = match f {
        DbFault::Connect => "error: connect".to_owned(),
        DbFault::Prepare => "error: prepare".to_owned(),
        DbFault::Execute => "error: execute".to_owned(),
    };
    Response { status: STATUS_INTERNAL_ERROR, body }
}

/// Where a session stands. `Connecting` is the start; `Finished` is
/// reached exactly when a response has been produced.
#[derive(Clone, Copy, PartialEq, Eq, Structural, Debug)]
pub enum SessionState {
    Connecting,
    Spawning,
    Preparing,
    Executing,
    Finished,
}

/// The outcome of one piece of outside work, fed back by the caller.
/// `ExecuteOk` carries the row count the execution reported;
/// `DriverStopped` carries whether the detached driver ended cleanly.
#[derive(Clone, Copy, PartialEq, Eq, Structural, Debug)]
pub enum DbEvent {
    ConnectOk,
    ConnectFailed,
    DriverSpawned,
    PrepareOk,
    PrepareFailed,
    ExecuteOk(u64),
    ExecuteFailed,
    DriverStopped(bool),
}

/// What the caller must do next. `Respond` ends the request; `Ignore`
/// asks for nothing (the discarded driver outcome).
pub enum Action {
    Connect(ConnectParams),
    SpawnDriver,
    Prepare(String),
    Execute,
    Respond(Response),
    Ignore,
}

/// An action stripped to what the contracts compare: the kind, and for a
/// response its status and body. Specification-level only.
pub enum ActionLabel {
    Connect,
    SpawnDriver,
    Prepare,
    Execute,
    Respond(u16, Seq<char>),
    Ignore,
}

pub open spec fn label_of(a: Action) -> ActionLabel {
    match a {
        Action::Connect(_) => ActionLabel::Connect,
        Action::SpawnDriver => ActionLabel::SpawnDriver,
        Action::Prepare(_) => ActionLabel::Prepare,
        Action::Execute => ActionLabel::Execute,
        Action::Respond(r) => ActionLabel::Respond(r.status, r.body@),
        Action::Ignore => ActionLabel::Ignore,
    }
}

/// The data an action carries is always the fixed descriptor and the
/// fixed statement text.
pub open spec fn payloads_fixed(a: Action) -> bool {
    match a {
        Action::Connect(p) => connect_params_fixed(p),
        Action::Prepare(sql) => sql@ == statement_text(),
        _ => true,
    }
}

/// Which events a state can receive. A driver outcome can arrive at any
/// point after the driver was handed off and before the response.
pub open spec fn accepts(s: SessionState, e: DbEvent) -> bool {
    match (s, e) {
        (SessionState::Connecting, DbEvent::ConnectOk) => true,
        (SessionState::Connecting, DbEvent::ConnectFailed) => true,
        (SessionState::Spawning, DbEvent::DriverSpawned) => true,
        (SessionState::Preparing, DbEvent::PrepareOk) => true,
        (SessionState::Preparing, DbEvent::PrepareFailed) => true,
        (SessionState::Executing, DbEvent::ExecuteOk(_)) => true,
        (SessionState::Executing, DbEvent::ExecuteFailed) => true,
        (SessionState::Preparing, DbEvent::DriverStopped(_)) => true,
        (SessionState::Executing, DbEvent::DriverStopped(_)) => true,
        _ => false,
    }
}

/// The next state, for every state and event.
pub open spec fn spec_next(s: SessionState, e: DbEvent) -> SessionState {
    match (s, e) {
        (SessionState::Connecting, DbEvent::ConnectOk) => SessionState::Spawning,
        (SessionState::Connecting, DbEvent::ConnectFailed) => SessionState::Finished,
        (SessionState::Spawning, DbEvent::DriverSpawned) => SessionState::Preparing,
        (SessionState::Preparing, DbEvent::PrepareOk) => SessionState::Executing,
        (SessionState::Preparing, DbEvent::PrepareFailed) => SessionState::Finished,
        (SessionState::Executing, DbEvent::ExecuteOk(_)) => SessionState::Finished,
        (SessionState::Executing, DbEvent::ExecuteFailed) => SessionState::Finished,
        (_, DbEvent::DriverStopped(_)) => s,
        _ => s,
    }
}

/// The next action, for every state and event. The row count of a
/// successful execution is discarded: the response does not depend on it.
pub open spec fn spec_action(s: SessionState, e: DbEvent) -> ActionLabel {
    match (s, e) {
        (SessionState::Connecting, DbEvent::ConnectOk) => ActionLabel::SpawnDriver,
        (SessionState::Connecting, DbEvent::ConnectFailed) => ActionLabel::Respond(
            STATUS_INTERNAL_ERROR,
            fault_body(DbFault::Connect),
        ),
        (SessionState::Spawning, DbEvent::DriverSpawned) => ActionLabel::Prepare,
        (SessionState::Preparing, DbEvent::PrepareOk) => ActionLabel::Execute,
        (SessionState::Preparing, DbEvent::PrepareFailed) => ActionLabel::Respond(
            STATUS_INTERNAL_ERROR,
            fault_body(DbFault::Prepare),
        ),
        (SessionState::Executing, DbEvent::ExecuteOk(_)) => ActionLabel::Respond(
            STATUS_OK,
            hello_body(),
        ),
        (SessionState::Executing, DbEvent::ExecuteFailed) => ActionLabel::Respond(
            STATUS_INTERNAL_ERROR,
            fault_body(DbFault::Execute),
        ),
        (_, DbEvent::DriverStopped(_)) => ActionLabel::Ignore,
        _ => ActionLabel::Ignore,
    }
}

/// Begin a fresh session: every request starts by opening its own
/// connection with the fixed descriptor. Nothing is reused.
pub fn start() -> (r: (SessionState, Action))
    ensures
        r.0 == SessionState::Connecting,
        label_of(r.1) == ActionLabel::Connect,
        payloads_fixed(r.1),
{
    (SessionState::Connecting, Action::Connect(connect_params()))
}

/// Whether `step` may be fed this event in this state.
pub fn accepts_event(s: SessionState, e: DbEvent) -> (r: bool)
    ensures
        r == accepts(s, e),
{
    match (s, e) {
        (SessionState::Connecting, DbEvent::ConnectOk) => true,
        (SessionState::Connecting, DbEvent::ConnectFailed) => true,
        (SessionState::Spawning, DbEvent::DriverSpawned) => true,
        (SessionState::Preparing, DbEvent::PrepareOk) => true,
        (SessionState::Preparing, DbEvent::PrepareFailed) => true,
        (SessionState::Executing, DbEvent::ExecuteOk(_)) => true,
        (SessionState::Executing, DbEvent::ExecuteFailed) => true,
        (SessionState::Preparing, DbEvent::DriverStopped(_)) => true,
        (SessionState::Executing, DbEvent::DriverStopped(_)) => true,
        _ => false,
    }
}

/// Advance the session by one outcome. On any database failure the
/// session finishes with an internal-error response that names the step;
/// on a successful execution it finishes with the fixed success body;
/// a driver outcome changes nothing.
pub fn step(s: SessionState, e: DbEvent) -> (r: (SessionState, Action))
    requires
        accepts(s, e),
    ensures
        r.0 == spec_next(s, e),
        label_of(r.1) == spec_action(s, e),
        payloads_fixed(r.1),
{
    match (s, e) {
        (SessionState::Connecting, DbEvent::ConnectOk) => (
            SessionState::Spawning,
            Action::SpawnDriver,
        ),
        (SessionState::Connecting, DbEvent::ConnectFailed) => (
            SessionState::Finished,
            Action::Respond(fault_response(DbFault::Connect)),
        ),
        (SessionState::Spawning, DbEvent::DriverSpawned) => (
            SessionState::Preparing,
            Action::Prepare(statement_sql()),
        ),
        (SessionState::Preparing, DbEvent::PrepareOk) => (
            SessionState::Executing,
            Action::Execute,
        ),
        (SessionState::Preparing, DbEvent::PrepareFailed) => (
            SessionState::Finished,
            Action::Respond(fault_response(DbFault::Prepare)),
        ),
        (SessionState::Executing, DbEvent::ExecuteOk(_)) => (
            SessionState::Finished,
            Action::Respond(hello_response()),
        ),
        (SessionState::Executing, DbEvent::ExecuteFailed) => (
            SessionState::Finished,
            Action::Respond(fault_response(DbFault::Execute)),
        ),
        (_, DbEvent::DriverStopped(_)) => (s, Action::Ignore),
        _ => (s, Action::Ignore),
    }
}

/// The state a session reaches after a sequence of events.
pub open spec fn run_state(events: Seq<DbEvent>) -> SessionState
    decreases events.len(),
{
    if events.len() == 0 {
        SessionState::Connecting
    } else {
        spec_next(run_state(events.drop_last()), events.last())
    }
}

/// Whether every event of the sequence is accepted at the state it meets.
pub open spec fn run_accepts(events: Seq<DbEvent>) -> bool
    decreases events.len(),
{
    if events.len() == 0 {
        true
    } else {
        run_accepts(events.drop_last()) && accepts(run_state(events.drop_last()), events.last())
    }
}

/// The status and body of the response a sequence of events produces, if
/// one has been produced yet.
pub open spec fn run_response(events: Seq<DbEvent>) -> Option<(u16, Seq<char>)>
    decreases events.len(),
{
    if events.len() == 0 {
        None
    } else if run_response(events.drop_last()) is Some {
        run_response(events.drop_last())
    } else {
        match spec_action(run_state(events.drop_last()), events.last()) {
            ActionLabel::Respond(status, body) => Some((status, body)),
            _ => None,
        }
    }
}

/// The event sequence of a request whose every database step succeeds,
/// with `rows` the row count the execution reported.
pub open spec fn healthy_events(rows: u64) -> Seq<DbEvent> {
    seq![DbEvent::ConnectOk, DbEvent::DriverSpawned, DbEvent::PrepareOk, DbEvent::ExecuteOk(rows)]
}

/// When the database is reachable and every step succeeds, the session
/// accepts the whole run, finishes, and answers 200 with the fixed body —
/// whatever row count the execution reported.
pub proof fn lemma_healthy_run(rows: u64)
    ensures
        run_accepts(healthy_events(rows)),
        run_state(healthy_events(rows)) == SessionState::Finished,
        run_response(healthy_events(rows)) == Some((STATUS_OK, hello_body())),
{
    reveal_with_fuel(run_state, 5);
    reveal_with_fuel(run_accepts, 5);
    reveal_with_fuel(run_response, 5);
    let e4 = healthy_events(rows);
    let e3 = e4.drop_last();
    let e2 = e3.drop_last();
    let e1 = e2.drop_last();
    let e0 = e1.drop_last();
    assert(e3 =~= seq![DbEvent::ConnectOk, DbEvent::DriverSpawned, DbEvent::PrepareOk]);
    assert(e2 =~= seq![DbEvent::ConnectOk, DbEvent::DriverSpawned]);
    assert(e1 =~= seq![DbEvent::ConnectOk]);
    assert(e0 =~= Seq::<DbEvent>::empty());
    assert(run_state(e1) == SessionState::Spawning);
    assert(run_state(e2) == SessionState::Preparing);
    assert(run_state(e3) == SessionState::Executing);
    assert(run_state(e4) == SessionState::Finished);
    assert(run_response(e3) is None);
}

/// Two healthy runs answer identically: the response does not depend on
/// the row count, so repeating the same request gives the same response
/// each time.
pub proof fn lemma_healthy_runs_agree(rows1: u64, rows2: u64)
    ensures
        run_response(healthy_events(rows1)) == run_response(healthy_events(rows2)),
{
    lemma_healthy_run(rows1);
    lemma_healthy_run(rows2);
}

/// No step of a running session ever opens a connection: the only
/// `Connect` action is the one `start` issues. Each request therefore
/// opens exactly one session of its own, and sessions are never reused.
pub proof fn lemma_step_never_connects(s: SessionState, e: DbEvent)
    ensures
        spec_action(s, e) != ActionLabel::Connect,
{
}

/// When the database target is unreachable, the session accepts the
/// failure, finishes normally — it does not abort the request path — and
/// answers with the internal-error response that names the connection.
pub proof fn lemma_unreachable_target()
    ensures
        run_accepts(seq![DbEvent::ConnectFailed]),
        run_state(seq![DbEvent::ConnectFailed]) == SessionState::Finished,
        run_response(seq![DbEvent::ConnectFailed]) == Some(
            (STATUS_INTERNAL_ERROR, fault_body(DbFault::Connect)),
        ),
{
    reveal_with_fuel(run_state, 2);
    reveal_with_fuel(run_accepts, 2);
    reveal_with_fuel(run_response, 2);
    let e1 = seq![DbEvent::ConnectFailed];
    assert(e1.drop_last() =~= Seq::<DbEvent>::empty());
}

/// When statement preparation fails, the session finishes with the
/// internal-error response that names preparation.
pub proof fn lemma_prepare_failure()
    ensures
        run_accepts(seq![DbEvent::ConnectOk, DbEvent::DriverSpawned, DbEvent::PrepareFailed]),
        run_state(seq![DbEvent::ConnectOk, DbEvent::DriverSpawned, DbEvent::PrepareFailed])
            == SessionState::Finished,
        run_response(seq![DbEvent::ConnectOk, DbEvent::DriverSpawned, DbEvent::PrepareFailed])
            == Some((STATUS_INTERNAL_ERROR, fault_body(DbFault::Prepare))),
{
    reveal_with_fuel(run_state, 4);
    reveal_with_fuel(run_accepts, 4);
    reveal_with_fuel(run_response, 4);
    let e3 = seq![DbEvent::ConnectOk, DbEvent::DriverSpawned, DbEvent::PrepareFailed];
    let e2 = e3.drop_last();
    let e1 = e2.drop_last();
    let e0 = e1.drop_last();
    assert(e2 =~= seq![DbEvent::ConnectOk, DbEvent::DriverSpawned]);
    assert(e1 =~= seq![DbEvent::ConnectOk]);
    assert(e0 =~= Seq::<DbEvent>::empty());
    assert(run_state(e1) == SessionState::Spawning);
    assert(run_state(e2) == SessionState::Preparing);
    assert(run_response(e2) is None);
}

/// The three fault responses are pairwise distinguishable by their bodies.
pub proof fn lemma_fault_bodies_distinct()
    ensures
        fault_body(DbFault::Connect) != fault_body(DbFault::Prepare),
        fault_body(DbFault::Prepare) != fault_body(DbFault::Execute),
        fault_body(DbFault::Connect) != fault_body(DbFault::Execute),
{
    reveal_strlit("error: connect");
    reveal_strlit("error: prepare");
    reveal_strlit("error: execute");
    assert(fault_body(DbFault::Connect)[7] != fault_body(DbFault::Prepare)[7]);
    assert(fault_body(DbFault::Prepare)[7] != fault_body(DbFault::Execute)[7]);
    assert(fault_body(DbFault::Connect)[7] != fault_body(DbFault::Execute)[7]);
}

/// A session finishes exactly when it has produced a response: no
/// accepted run stops without answering, and none keeps running after
/// it answered.
pub proof fn lemma_finished_iff_responded(events: Seq<DbEvent>)
    requires
        run_accepts(events),
    ensures
        run_state(events) == SessionState::Finished <==> run_response(events) is Some,
    decreases events.len(),
{
    if events.len() > 0 {
        lemma_finished_iff_responded(events.drop_last());
    }
}

/// The driver's outcome is discarded: whether it stopped cleanly or with
/// an error, the state does not move and nothing is asked of the caller.
pub proof fn lemma_driver_outcome_discarded(s: SessionState, ok1: bool, ok2: bool)
    ensures
        spec_next(s, DbEvent::DriverStopped(ok1)) == s,
        spec_action(s, DbEvent::DriverStopped(ok1)) == ActionLabel::Ignore,
        spec_action(s, DbEvent::DriverStopped(ok1)) == spec_action(s, DbEvent::DriverStopped(ok2)),
{
}

/// A driver outcome arriving during a run changes neither the state the
/// run reaches nor the response it produces.
pub proof fn lemma_driver_stop_appended(events: Seq<DbEvent>, ok: bool)
    ensures
        run_state(events.push(DbEvent::DriverStopped(ok))) == run_state(events),
        run_response(events.push(DbEvent::DriverStopped(ok))) == run_response(events),
{
    let pushed = events.push(DbEvent::DriverStopped(ok));
    assert(pushed.drop_last() =~= events);
    assert(pushed.last() == DbEvent::DriverStopped(ok));
}

} // verus!
