//! Asking every running worker for its status, and the report of what came
//! back.
//!
//! The operation asks for the list of workers and sends a status order to
//! each running one. It then collects the terminal answers. The caller
//! decides how long to wait: the report can be made at any time, and says
//! `timeout` for an answer that has not come when the wait was cut short.

use vstd::prelude::*;
use vstd::string::*;
use crate::command::exchange::{
    classify, event_view, failure_line, fixed_line, prefixed_line, verdict, Flow, Output, OutputView, Verdict,
};
use crate::command::ids::{generate_distinct_id, generate_id, has_tag, is_tagged_id};
use crate::command::idset::IdSet;
use crate::command::messages::{
    command_views, distinct_ids, ids_of, lemma_distinct_push, lemma_ids_of_push, running_workers,
    select_running, texts, Answer, AnswerPayload,
    AnswerPayloadView, AnswerStatus, AnswerView, Command, CommandKind, CommandKindView,
    CommandView, Order, OrderView, RunState, Worker,
};
use crate::command::tables::Table;
use crate::text::{decimal, decimal_text, signed_decimal, signed_decimal_text};

verus! {

/// A status order in flight: its identifier, the worker it was sent to, and
/// the status of the last answer that counted for it.
#[derive(Debug, Clone, PartialEq, Eq)]
pub struct Pending {
    pub id: String,
    pub worker: u32,
    pub status: AnswerStatus,
}

/// A status order in flight, as a value.
pub struct PendingView {
    pub id: Seq<char>,
    pub worker: u32,
    pub status: AnswerStatus,
}

impl View for Pending {
    type V = PendingView;

    open spec fn view(&self) -> PendingView {
        PendingView { id: self.id@, worker: self.worker, status: self.status }
    }
}

/// The orders of a table, as values.
pub open spec fn pending_views(table: Seq<Pending>) -> Seq<PendingView> {
    table.map_values(|p: Pending| p@)
}

/// Where a status poll stands.
#[derive(Debug, Clone, PartialEq, Eq)]
pub enum Status {
    /// The list of workers was asked for under `id`.
    Listing { id: String },
    /// Status orders were sent; `expecting` holds the identifiers that have
    /// had no terminal answer yet.
    Collecting { workers: Vec<Worker>, expecting: IdSet, table: Vec<Pending> },
}

/// The state of a poll, as a value.
pub enum StatusView {
    Listing { id: Seq<char> },
    Collecting { workers: Seq<Worker>, expecting: Set<Seq<char>>, table: Seq<PendingView> },
}

impl View for Status {
    type V = StatusView;

    open spec fn view(&self) -> StatusView {
        match self {
            Status::Listing { id } => StatusView::Listing { id: id@ },
            Status::Collecting { workers, expecting, table } => StatusView::Collecting {
                workers: workers@,
                expecting: expecting@,
                table: pending_views(table@),
            },
        }
    }
}

/// What a step of the poll leaves: the new state, the commands to send, what
/// to show, and whether to go on reading.
#[derive(Debug, Clone, PartialEq, Eq)]
pub struct StatusStep {
    pub state: Status,
    pub commands: Vec<Command>,
    pub output: Output,
    pub flow: Flow,
}

/// A step of the poll, as a value.
pub struct StatusStepView {
    pub state: StatusView,
    pub commands: Seq<CommandView>,
    pub output: OutputView,
    pub flow: Flow,
}

impl View for StatusStep {
    type V = StatusStepView;

    open spec fn view(&self) -> StatusStepView {
        StatusStepView {
            state: self.state@,
            commands: command_views(self.commands@),
            output: self.output@,
            flow: self.flow,
        }
    }
}

/// The position of the first entry of `table` with the identifier `id`, or
/// the length of the table if there is none.
pub open spec fn position_of(table: Seq<PendingView>, id: Seq<char>) -> int
    decreases table.len(),
{
    if table.len() == 0 {
        0
    } else if table.first().id == id {
        0
    } else {
        1 + position_of(table.drop_first(), id)
    }
}

/// The table after the order under `id` was concluded with `status`.
pub open spec fn concluded(table: Seq<PendingView>, id: Seq<char>, status: AnswerStatus) -> Seq<PendingView> {
    let at = position_of(table, id);
    if at < table.len() {
        table.update(at, PendingView { status, ..table[at] })
    } else {
        table
    }
}

/// The table after the commands were sent to the workers, one each: an
/// entry for every command, in their order, with no answer yet.
pub open spec fn pending_table(commands: Seq<CommandView>, workers: Seq<Worker>) -> Seq<PendingView> {
    Seq::new(
        commands.len(),
        |i: int| PendingView { id: commands[i].id, worker: workers[i].id, status: AnswerStatus::Processing },
    )
}

/// Whether `c` asks the worker `w` for its status.
pub open spec fn is_status_of(c: CommandView, w: Worker) -> bool {
    &&& c.kind == CommandKindView::ProxyConfiguration(OrderView::Status)
    &&& c.target_worker == Some(w.id)
    &&& has_tag("ID"@, c.id)
}

/// Whether `c` asks for the list of workers.
pub open spec fn is_listing(c: CommandView) -> bool {
    &&& c.kind == CommandKindView::ListWorkers
    &&& c.target_worker is None
    &&& is_tagged_id("ID"@, c.id)
}

/// Whether the collection is complete.
pub open spec fn flow_of(expecting: Set<Seq<char>>) -> Flow {
    if expecting == Set::<Seq<char>>::empty() {
        Flow::Return
    } else {
        Flow::Wait
    }
}

/// A step that ends the poll and the process.
pub open spec fn aborted(pre: StatusView, output: OutputView) -> StatusStepView {
    StatusStepView { state: pre, commands: Seq::empty(), output, flow: Flow::Exit }
}

/// Whether `step` sends a status order to each running worker of `workers`,
/// no two of them under the same identifier.
pub open spec fn fans_out(workers: Seq<Worker>, step: StatusStepView) -> bool {
    let running = running_workers(workers);
    &&& step.commands.len() == running.len()
    &&& distinct_ids(step.commands)
    &&& forall|i: int| 0 <= i < running.len() ==> is_status_of(#[trigger] step.commands[i], running[i])
    &&& step.state == StatusView::Collecting {
        workers,
        expecting: ids_of(step.commands),
        table: pending_table(step.commands, running),
    }
    &&& step.output == OutputView::Nothing
    &&& step.flow == flow_of(ids_of(step.commands))
}

/// Whether `step` is a step of the poll from the state `pre` on `event`.
/// Everything is fixed but the random part of the new identifiers.
pub open spec fn step_fits(pre: StatusView, event: Option<AnswerView>, step: StatusStepView) -> bool {
    match pre {
        StatusView::Listing { id } => match verdict(id, event) {
            Verdict::Silence => step == aborted(pre, OutputView::Line("the proxy didn't answer"@)),
            Verdict::Mismatch => step == aborted(pre, OutputView::InvalidAnswer(event->0)),
            Verdict::Progress => step == aborted(
                pre,
                OutputView::Line("should have obtained an answer immediately"@),
            ),
            Verdict::Failure => step == aborted(
                pre,
                OutputView::Line("could not get the worker list: "@ + event->0.message),
            ),
            Verdict::Success => match event->0.data {
                Some(AnswerPayloadView::Workers(workers)) => fans_out(workers, step),
                _ => step == (StatusStepView {
                    state: pre,
                    commands: Seq::empty(),
                    output: OutputView::Nothing,
                    flow: Flow::Return,
                }),
            },
        },
        StatusView::Collecting { workers, expecting, table } => match event {
            None => step == aborted(pre, OutputView::Line("the proxy didn't answer"@)),
            Some(answer) => if answer.status.is_terminal() {
                step == (StatusStepView {
                    state: StatusView::Collecting {
                        workers,
                        expecting: expecting.remove(answer.id),
                        table: if expecting.contains(answer.id) {
                            concluded(table, answer.id, answer.status)
                        } else {
                            table
                        },
                    },
                    commands: Seq::empty(),
                    output: if answer.status == AnswerStatus::Error {
                        OutputView::Line("error for message["@ + answer.id + "]: "@ + answer.message)
                    } else {
                        OutputView::Nothing
                    },
                    flow: flow_of(expecting.remove(answer.id)),
                })
            } else {
                step == (StatusStepView {
                    state: pre,
                    commands: Seq::empty(),
                    output: OutputView::Nothing,
                    flow: flow_of(expecting),
                })
            },
        },
    }
}

/// The name of a run state.
pub open spec fn run_state_name(state: RunState) -> Seq<char> {
    match state {
        RunState::Running => "Running"@,
        RunState::Stopping => "Stopping"@,
        RunState::Stopped => "Stopped"@,
        RunState::NotAnswering => "NotAnswering"@,
    }
}

/// The status recorded for a worker: that of the first entry of the table
/// that was sent to it.
pub open spec fn status_of(table: Seq<PendingView>, worker: u32) -> Option<AnswerStatus>
    decreases table.len(),
{
    if table.len() == 0 {
        None
    } else if table.first().worker == worker {
        Some(table.first().status)
    } else {
        status_of(table.drop_first(), worker)
    }
}

/// The answer cell of a worker. `table` is what was collected, if it could
/// be read; `finished` says whether the collection was complete when the
/// wait ended.
pub open spec fn answer_cell(worker: Worker, table: Option<Seq<PendingView>>, finished: bool) -> Seq<char> {
    let recorded = match table {
        Some(t) => status_of(t, worker.id),
        None => None,
    };
    match recorded {
        Some(AnswerStatus::Done) => "ok"@,
        Some(AnswerStatus::Error) => "error"@,
        Some(AnswerStatus::Processing) => if finished {
            "processing"@
        } else {
            "timeout"@
        },
        None => if !finished && worker.run_state == RunState::Running {
            "timeout"@
        } else {
            ""@
        },
    }
}

/// The row of a worker in the report.
pub open spec fn report_row(worker: Worker, table: Option<Seq<PendingView>>, finished: bool) -> Seq<Seq<char>> {
    seq![
        decimal(worker.id as nat),
        signed_decimal(worker.pid as int),
        run_state_name(worker.run_state),
        answer_cell(worker, table, finished),
    ]
}

/// The report: a header, then one row for every worker of the list, running
/// or not, in the order of the list.
pub open spec fn report_of(workers: Seq<Worker>, table: Option<Seq<PendingView>>, finished: bool) -> Seq<Seq<Seq<char>>> {
    seq![seq!["Worker"@, "pid"@, "run state"@, "answer"@]] + workers.map_values(
        |w: Worker| report_row(w, table, finished),
    )
}

/// What was collected, as a value, where it could be read.
pub open spec fn table_view(table: Option<&Vec<Pending>>) -> Option<Seq<PendingView>> {
    match table {
        Some(t) => Some(pending_views(t@)),
        None => None,
    }
}

/// Starts a status poll: the state to keep and the command to send first.
pub fn status() -> (res: (Status, Command))
    ensures
        is_listing(res.1@),
        res.0@ == (StatusView::Listing { id: res.1@.id }),
{
    let id = generate_id();
    let command = Command::new(id.clone(), CommandKind::ListWorkers, None);
    (Status::Listing { id }, command)
}

/// The position of the first entry with the identifier `id`, or the length
/// of the table.
fn find(table: &Vec<Pending>, id: &String) -> (at: usize)
    ensures
        at == position_of(pending_views(table@), id@),
        at <= table.len(),
{
    let ghost view = pending_views(table@);
    let mut i: usize = 0;
    assert(view.skip(0) =~= view);
    while i < table.len()
        invariant
            i <= table.len(),
            view == pending_views(table@),
            position_of(view, id@) == i + position_of(view.skip(i as int), id@),
        decreases table.len() - i,
    {
        assert(view.skip(i as int).drop_first() =~= view.skip(i + 1));
        if table[i].id == *id {
            return i;
        }
        i += 1;
    }
    i
}

/// Records the terminal status of the order under `id`.
fn conclude(table: &mut Vec<Pending>, id: &String, status: AnswerStatus)
    ensures
        pending_views(final(table)@) == concluded(pending_views(old(table)@), id@, status),
{
    let at = find(table, id);
    if at < table.len() {
        let entry = Pending { id: table[at].id.clone(), worker: table[at].worker, status };
        table.set(at, entry);
    }
}

/// Sends a status order to each running worker of the list.
fn fan_out(workers: Vec<Worker>) -> (res: StatusStep)
    ensures
        fans_out(workers@, res@),
{
    let running = select_running(&workers);
    let mut commands: Vec<Command> = Vec::new();
    let mut expecting = IdSet::new();
    let mut table: Vec<Pending> = Vec::new();
    let mut i: usize = 0;
    while i < running.len()
        invariant
            i <= running.len(),
            commands@.len() == i,
            forall|k: int| 0 <= k < i ==> is_status_of(#[trigger] command_views(commands@)[k], running@[k]),
            expecting@ == ids_of(command_views(commands@)),
            distinct_ids(command_views(commands@)),
            pending_views(table@) == pending_table(command_views(commands@), running@),
        decreases running.len() - i,
    {
        let id = generate_distinct_id("ID", &expecting);
        let ghost before = command_views(commands@);
        let command = Command::new(
            id.clone(),
            CommandKind::ProxyConfiguration(Order::Status),
            Some(running[i].id),
        );
        commands.push(command);
        expecting.insert(id.clone());
        let ghost table_before = pending_views(table@);
        let entry = Pending { id, worker: running[i].id, status: AnswerStatus::Processing };
        table.push(entry);
        assert(pending_views(table@) =~= table_before.push(entry@));
        assert(command_views(commands@) =~= before.push(command@));
        proof {
            lemma_ids_of_push(before, command@);
            lemma_distinct_push(before, command@);
            assert(pending_views(table@) =~= pending_table(command_views(commands@), running@));
        }
        i += 1;
    }
    let flow = if expecting.is_empty() {
        Flow::Return
    } else {
        Flow::Wait
    };
    StatusStep { state: Status::Collecting { workers, expecting, table }, commands, output: Output::Nothing, flow }
}

fn abort(state: Status, output: Output) -> (res: StatusStep)
    ensures
        res@ == aborted(state@, output@),
{
    let res = StatusStep { state, commands: Vec::new(), output, flow: Flow::Exit };
    assert(res@.commands =~= Seq::empty());
    res
}

/// Writes the name of a run state.
pub fn run_state_text(state: RunState) -> (res: String)
    ensures
        res@ == run_state_name(state),
{
    match state {
        RunState::Running => String::from_str("Running"),
        RunState::Stopping => String::from_str("Stopping"),
        RunState::Stopped => String::from_str("Stopped"),
        RunState::NotAnswering => String::from_str("NotAnswering"),
    }
}

/// The status recorded for a worker.
fn lookup(table: &Vec<Pending>, worker: u32) -> (res: Option<AnswerStatus>)
    ensures
        res == status_of(pending_views(table@), worker),
{
    let ghost view = pending_views(table@);
    let mut i: usize = 0;
    assert(view.skip(0) =~= view);
    while i < table.len()
        invariant
            i <= table.len(),
            view == pending_views(table@),
            status_of(view, worker) == status_of(view.skip(i as int), worker),
        decreases table.len() - i,
    {
        assert(view.skip(i as int).drop_first() =~= view.skip(i + 1));
        if table[i].worker == worker {
            return Some(table[i].status);
        }
        i += 1;
    }
    None
}

/// Writes the answer cell of a worker.
fn answer_text(worker: &Worker, table: Option<&Vec<Pending>>, finished: bool) -> (res: String)
    ensures
        res@ == answer_cell(*worker, table_view(table), finished),
{
    let recorded = match table {
        Some(t) => lookup(t, worker.id),
        None => None,
    };
    match recorded {
        Some(AnswerStatus::Done) => String::from_str("ok"),
        Some(AnswerStatus::Error) => String::from_str("error"),
        Some(AnswerStatus::Processing) => if finished {
            String::from_str("processing")
        } else {
            String::from_str("timeout")
        },
        None => if !finished && worker.run_state == RunState::Running {
            String::from_str("timeout")
        } else {
            String::from_str("")
        },
    }
}

/// Makes the report of a poll.
///
/// `workers` is the list as it was answered, `table` what was collected, or
/// nothing where it could not be read at this moment, and `finished` whether
/// every order had its terminal answer before the wait ended. A worker that
/// was sent no order has an empty answer cell, unless it is running and the
/// wait was cut short.
pub fn status_report(workers: &Vec<Worker>, table: Option<&Vec<Pending>>, finished: bool) -> (res: Table)
    ensures
        res@ == report_of(workers@, table_view(table), finished),
{
    let ghost expected = report_of(workers@, table_view(table), finished);
    let mut rows: Vec<Vec<String>> = Vec::new();
    let mut header: Vec<String> = Vec::new();
    header.push(String::from_str("Worker"));
    header.push(String::from_str("pid"));
    header.push(String::from_str("run state"));
    header.push(String::from_str("answer"));
    rows.push(header);
    let mut i: usize = 0;
    while i < workers.len()
        invariant
            i <= workers.len(),
            expected == report_of(workers@, table_view(table), finished),
            rows@.len() == i + 1,
            forall|k: int| 0 <= k <= i ==> texts(#[trigger] rows@[k]@) == expected[k],
        decreases workers.len() - i,
    {
        let worker = &workers[i];
        let mut row: Vec<String> = Vec::new();
        row.push(decimal_text(worker.id as u64));
        row.push(signed_decimal_text(worker.pid as i64));
        row.push(run_state_text(worker.run_state));
        row.push(answer_text(worker, table, finished));
        rows.push(row);
        i += 1;
    }
    Table { rows }
}

impl Status {
    /// Takes the poll one event further.
    ///
    /// Until the list of workers has come, anything but its successful
    /// answer ends the poll and the process. After that a terminal answer to
    /// one of the orders in flight is recorded for its worker, and an answer
    /// to anything else changes nothing. The flow of the step is `Return`
    /// when nothing is in flight any more.
    pub fn step(self, event: Option<Answer>) -> (res: StatusStep)
        ensures
            step_fits(self@, event_view(event), res@),
    {
        match self {
            Status::Listing { id } => {
                let verdict = classify(&id, &event);
                match event {
                    None => abort(Status::Listing { id }, fixed_line("the proxy didn't answer")),
                    Some(answer) => match verdict {
                        Verdict::Mismatch => abort(Status::Listing { id }, Output::InvalidAnswer(answer)),
                        Verdict::Progress => abort(
                            Status::Listing { id },
                            fixed_line("should have obtained an answer immediately"),
                        ),
                        Verdict::Failure => abort(
                            Status::Listing { id },
                            prefixed_line("could not get the worker list: ", &answer.message),
                        ),
                        _ => match answer.data {
                            Some(AnswerPayload::Workers(workers)) => fan_out(workers),
                            _ => {
                                let res = StatusStep {
                                    state: Status::Listing { id },
                                    commands: Vec::new(),
                                    output: Output::Nothing,
                                    flow: Flow::Return,
                                };
                                assert(res@.commands =~= Seq::empty());
                                res
                            },
                        },
                    },
                }
            },
            Status::Collecting { workers, expecting, table } => {
                let mut expecting = expecting;
                let mut table = table;
                match event {
                    None => abort(
                        Status::Collecting { workers, expecting, table },
                        fixed_line("the proxy didn't answer"),
                    ),
                    Some(answer) => {
                        let mut output = Output::Nothing;
                        if answer.status.terminal() {
                            if answer.status == AnswerStatus::Error {
                                output = failure_line(&answer);
                            }
                            if expecting.remove(&answer.id) {
                                conclude(&mut table, &answer.id, answer.status);
                            }
                        }
                        let flow = if expecting.is_empty() {
                            Flow::Return
                        } else {
                            Flow::Wait
                        };
                        let res = StatusStep {
                            state: Status::Collecting { workers, expecting, table },
                            commands: Vec::new(),
                            output,
                            flow,
                        };
                        assert(res@.commands =~= Seq::empty());
                        res
                    },
                }
            },
        }
    }

    /// The report of the poll at this moment, if the list of workers has
    /// come. `finished` says whether every order had its terminal answer
    /// before the wait ended.
    pub fn report(&self, finished: bool) -> (res: Option<Table>)
        ensures
            match self@ {
                StatusView::Listing { .. } => res is None,
                StatusView::Collecting { workers, expecting, table } => res is Some && res->0@ == report_of(
                    workers,
                    Some(table),
                    finished,
                ),
            },
    {
        match self {
            Status::Listing { .. } => None,
            Status::Collecting { workers, table, .. } => Some(status_report(workers, Some(table), finished)),
        }
    }
}

/// While answers are collected, an answer to a command that is not in
/// flight is recorded for no worker: the state stays as it is and nothing is
/// sent.
pub proof fn lemma_untracked_answer_changes_nothing(
    workers: Seq<Worker>,
    expecting: Set<Seq<char>>,
    table: Seq<PendingView>,
    answer: AnswerView,
    step: StatusStepView,
)
    requires
        !expecting.contains(answer.id),
        step_fits(StatusView::Collecting { workers, expecting, table }, Some(answer), step),
    ensures
        step.state == (StatusView::Collecting { workers, expecting, table }),
        step.commands.len() == 0,
{
    assert(expecting.remove(answer.id) =~= expecting);
}

/// Until the list of workers has come, an answer to another command ends
/// the poll: nothing is sent, and nothing is reported but that answer.
pub proof fn lemma_mismatch_ends_poll(id: Seq<char>, answer: AnswerView, step: StatusStepView)
    requires
        id != answer.id,
        step_fits(StatusView::Listing { id }, Some(answer), step),
    ensures
        step == aborted(StatusView::Listing { id }, OutputView::InvalidAnswer(answer)),
{
}

/// The report has a header and one row of four cells for every worker of
/// the list. A worker that is not running and was sent no order has an
/// empty answer cell, and an order without a terminal answer shows as
/// `timeout` when the wait was cut short.
pub proof fn lemma_report_rows(workers: Seq<Worker>, table: Option<Seq<PendingView>>, finished: bool, i: int)
    requires
        0 <= i < workers.len(),
    ensures
        report_of(workers, table, finished).len() == workers.len() + 1,
        report_of(workers, table, finished)[i + 1] == report_row(workers[i], table, finished),
        report_row(workers[i], table, finished).len() == 4,
        workers[i].run_state != RunState::Running && (table matches Some(t) ==> status_of(t, workers[i].id)
            is None) ==> answer_cell(workers[i], table, finished) == ""@,
        !finished && (table matches Some(t) && status_of(t, workers[i].id) == Some(
            AnswerStatus::Processing,
        )) ==> answer_cell(workers[i], table, finished) == "timeout"@,
{
}

/// Whether the table follows the commands: it holds one entry for each, in
/// their order, sent to the worker of the same place, and without an answer
/// as long as the command is in flight.
pub open spec fn tracks(
    table: Seq<PendingView>,
    expecting: Set<Seq<char>>,
    commands: Seq<CommandView>,
    running: Seq<Worker>,
) -> bool {
    &&& table.len() == commands.len()
    &&& commands.len() == running.len()
    &&& forall|i: int|
        0 <= i < table.len() ==> (#[trigger] table[i]).id == commands[i].id && table[i].worker
            == running[i].id
    &&& forall|i: int|
        0 <= i < table.len() && expecting.contains(commands[i].id) ==> (#[trigger] table[i]).status
            == AnswerStatus::Processing
}

/// Whether no two workers of the list have the same identifier.
pub open spec fn distinct_workers(workers: Seq<Worker>) -> bool {
    forall|i: int, j: int| 0 <= i < j < workers.len() ==> (#[trigger] workers[i]).id != (#[trigger] workers[j]).id
}

/// The answer cell for a recorded status.
pub open spec fn status_cell(status: AnswerStatus, finished: bool) -> Seq<char> {
    match status {
        AnswerStatus::Done => "ok"@,
        AnswerStatus::Error => "error"@,
        AnswerStatus::Processing => if finished {
            "processing"@
        } else {
            "timeout"@
        },
    }
}

proof fn lemma_position_first(table: Seq<PendingView>, id: Seq<char>, at: int)
    requires
        0 <= at <= table.len(),
        at < table.len() ==> table[at].id == id,
        forall|k: int| 0 <= k < at ==> (#[trigger] table[k]).id != id,
    ensures
        position_of(table, id) == at,
    decreases table.len(),
{
    if table.len() > 0 && at > 0 {
        let rest = table.drop_first();
        assert(table[0].id != id);
        assert forall|k: int| 0 <= k < at - 1 implies (#[trigger] rest[k]).id != id by {
            assert(rest[k] == table[k + 1]);
        }
        if at < table.len() {
            assert(rest[at - 1] == table[at]);
        }
        lemma_position_first(rest, id, at - 1);
    }
}

proof fn lemma_status_first(table: Seq<PendingView>, worker: u32, at: int)
    requires
        0 <= at <= table.len(),
        at < table.len() ==> table[at].worker == worker,
        forall|k: int| 0 <= k < at ==> (#[trigger] table[k]).worker != worker,
    ensures
        status_of(table, worker) == if at < table.len() {
            Some(table[at].status)
        } else {
            None
        },
    decreases table.len(),
{
    if table.len() > 0 && at > 0 {
        let rest = table.drop_first();
        assert(table[0].worker != worker);
        assert forall|k: int| 0 <= k < at - 1 implies (#[trigger] rest[k]).worker != worker by {
            assert(rest[k] == table[k + 1]);
        }
        if at < table.len() {
            assert(rest[at - 1] == table[at]);
        }
        lemma_status_first(rest, worker, at - 1);
    }
}

/// What the running workers of a list are: each is a running worker of the
/// list, they stand in the order of the list, and every running worker of
/// the list is among them.
proof fn lemma_running_workers(workers: Seq<Worker>)
    ensures
        forall|i: int|
            0 <= i < running_workers(workers).len() ==> (#[trigger] running_workers(workers)[i]).run_state
                == RunState::Running && workers.contains(running_workers(workers)[i]),
        forall|j: int|
            0 <= j < workers.len() && (#[trigger] workers[j]).run_state == RunState::Running
                ==> running_workers(workers).contains(workers[j]),
        distinct_workers(workers) ==> distinct_workers(running_workers(workers)),
    decreases workers.len(),
{
    if workers.len() > 0 {
        let shorter = workers.drop_last();
        let last = workers.last();
        let before = running_workers(shorter);
        let all = running_workers(workers);
        lemma_running_workers(shorter);
        assert forall|i: int| 0 <= i < all.len() implies (#[trigger] all[i]).run_state == RunState::Running
            && workers.contains(all[i]) by {
            if i < before.len() {
                assert(all[i] == before[i]);
                let k = choose|k: int| 0 <= k < shorter.len() && shorter[k] == before[i];
                assert(workers[k] == all[i]);
            } else {
                assert(workers[workers.len() - 1] == all[i]);
            }
        }
        assert forall|j: int|
            0 <= j < workers.len() && (#[trigger] workers[j]).run_state == RunState::Running implies all.contains(
            workers[j],
        ) by {
            if j < shorter.len() {
                assert(shorter[j] == workers[j]);
                let k = choose|k: int| 0 <= k < before.len() && before[k] == shorter[j];
                assert(all[k] == workers[j]);
            } else {
                assert(all[all.len() - 1] == workers[j]);
            }
        }
        if distinct_workers(workers) {
            assert(distinct_workers(shorter)) by {
                assert forall|i: int, j: int| 0 <= i < j < shorter.len() implies (#[trigger] shorter[i]).id != (
                    #[trigger] shorter[j]).id by {
                    assert(shorter[i] == workers[i] && shorter[j] == workers[j]);
                }
            }
            assert forall|i: int, j: int| 0 <= i < j < all.len() implies (#[trigger] all[i]).id != (
                #[trigger] all[j]).id by {
                if j < before.len() {
                    assert(all[i] == before[i] && all[j] == before[j]);
                } else {
                    assert(all[i] == before[i]);
                    let k = choose|k: int| 0 <= k < shorter.len() && shorter[k] == before[i];
                    assert(workers[k] == all[i]);
                    assert(workers[workers.len() - 1] == all[j]);
                }
            }
        }
    }
}

/// The status that an event brings for the command under `id`: that of a
/// terminal answer to it, while it is in flight.
pub open spec fn brought(event: Option<AnswerView>, expecting: Set<Seq<char>>, id: Seq<char>) -> Option<
    AnswerStatus,
> {
    match event {
        Some(answer) => if answer.status.is_terminal() && answer.id == id && expecting.contains(id) {
            Some(answer.status)
        } else {
            None
        },
        None => None,
    }
}

/// After the status orders were sent, the table follows them.
pub proof fn lemma_fan_out_tracks(workers: Seq<Worker>, step: StatusStepView)
    requires
        fans_out(workers, step),
    ensures
        step.state is Collecting,
        step.state->workers == workers,
        tracks(step.state->table, step.state->expecting, step.commands, running_workers(workers)),
        distinct_ids(step.commands),
{
}

/// The table goes on following the commands whatever comes on the channel.
/// A terminal answer to a command in flight is recorded as the status of
/// that command and takes it out of those in flight; every other status
/// stays as it is.
pub proof fn lemma_step_tracks(
    workers: Seq<Worker>,
    expecting: Set<Seq<char>>,
    table: Seq<PendingView>,
    commands: Seq<CommandView>,
    running: Seq<Worker>,
    event: Option<AnswerView>,
    step: StatusStepView,
)
    requires
        tracks(table, expecting, commands, running),
        distinct_ids(commands),
        step_fits(StatusView::Collecting { workers, expecting, table }, event, step),
    ensures
        step.state is Collecting,
        step.state->workers == workers,
        tracks(step.state->table, step.state->expecting, commands, running),
        forall|i: int|
            0 <= i < commands.len() ==> (#[trigger] step.state->table[i]).status == match brought(
                event,
                expecting,
                commands[i].id,
            ) {
                Some(status) => status,
                None => table[i].status,
            },
        forall|id: Seq<char>|
            #[trigger] step.state->expecting.contains(id) <==> expecting.contains(id) && brought(
                event,
                expecting,
                id,
            ) is None,
{
    match event {
        Some(answer) => {
            if answer.status.is_terminal() && expecting.contains(answer.id) {
                if exists|i: int| 0 <= i < commands.len() && commands[i].id == answer.id {
                    let at = choose|i: int| 0 <= i < commands.len() && commands[i].id == answer.id;
                    assert forall|k: int| 0 <= k < at implies (#[trigger] table[k]).id != answer.id by {
                        assert(commands[k].id != commands[at].id);
                    }
                    lemma_position_first(table, answer.id, at);
                    assert forall|i: int| 0 <= i < commands.len() && i != at implies commands[i].id
                        != answer.id by {
                        if i < at {
                            assert(commands[i].id != commands[at].id);
                        } else {
                            assert(commands[at].id != commands[i].id);
                        }
                    }
                } else {
                    assert forall|k: int| 0 <= k < table.len() implies (#[trigger] table[k]).id
                        != answer.id by {
                        assert(table[k].id == commands[k].id);
                    }
                    lemma_position_first(table, answer.id, table.len() as int);
                }
            }
        },
        None => {},
    }
}

/// The answer cells of a report. Where the workers of the list have
/// distinct identifiers and the table follows the commands, the cell of the
/// running worker that an order was sent to shows the status of that order,
/// and the cell of a worker that is not running is empty.
pub proof fn lemma_answer_cells(
    workers: Seq<Worker>,
    expecting: Set<Seq<char>>,
    table: Seq<PendingView>,
    commands: Seq<CommandView>,
    finished: bool,
)
    requires
        distinct_workers(workers),
        tracks(table, expecting, commands, running_workers(workers)),
    ensures
        forall|i: int|
            0 <= i < table.len() ==> answer_cell(
                #[trigger] running_workers(workers)[i],
                Some(table),
                finished,
            ) == status_cell(table[i].status, finished),
        forall|j: int|
            0 <= j < workers.len() && (#[trigger] workers[j]).run_state != RunState::Running ==> answer_cell(
                workers[j],
                Some(table),
                finished,
            ) == ""@,
{
    let running = running_workers(workers);
    lemma_running_workers(workers);
    assert forall|i: int| 0 <= i < table.len() implies answer_cell(
        #[trigger] running[i],
        Some(table),
        finished,
    ) == status_cell(table[i].status, finished) by {
        assert forall|k: int| 0 <= k < i implies (#[trigger] table[k]).worker != running[i].id by {
            assert(running[k].id != running[i].id);
        }
        lemma_status_first(table, running[i].id, i);
    }
    assert forall|j: int|
        0 <= j < workers.len() && (#[trigger] workers[j]).run_state != RunState::Running implies answer_cell(
        workers[j],
        Some(table),
        finished,
    ) == ""@ by {
        assert forall|k: int| 0 <= k < table.len() implies (#[trigger] table[k]).worker != workers[j].id by {
            let m = choose|m: int| 0 <= m < workers.len() && workers[m] == running[k];
            assert(workers[m].run_state == RunState::Running);
            if m < j {
                assert(workers[m].id != workers[j].id);
            } else {
                assert(workers[j].id != workers[m].id);
            }
        }
        lemma_status_first(table, workers[j].id, table.len() as int);
    }
}

/// Whether `step` is a step of the poll from the state `pre` on `event`:
/// `step_fits`, kept folded in what is said of whole runs.
#[verifier::opaque]
pub open spec fn fits(pre: StatusView, event: Option<AnswerView>, step: StatusStepView) -> bool {
    step_fits(pre, event, step)
}

/// Whether `steps` are the steps of a poll that stands in `start` and is
/// handed `events`, one after the other.
pub open spec fn is_collection(
    start: StatusView,
    events: Seq<Option<AnswerView>>,
    steps: Seq<StatusStepView>,
) -> bool {
    &&& steps.len() == events.len()
    &&& forall|i: int|
        0 <= i < events.len() ==> fits(
            if i == 0 {
                start
            } else {
                steps[i - 1].state
            },
            #[trigger] events[i],
            steps[i],
        )
}

/// The state that a poll has reached after its steps.
pub open spec fn reached(start: StatusView, steps: Seq<StatusStepView>) -> StatusView {
    if steps.len() == 0 {
        start
    } else {
        steps.last().state
    }
}

/// The status of the first terminal answer to the command under `id` among
/// the events, if there is one.
pub open spec fn answered(events: Seq<Option<AnswerView>>, id: Seq<char>) -> Option<AnswerStatus>
    decreases events.len(),
{
    if events.len() == 0 {
        None
    } else {
        match answered(events.drop_last(), id) {
            Some(status) => Some(status),
            None => match events.last() {
                Some(answer) => if answer.status.is_terminal() && answer.id == id {
                    Some(answer.status)
                } else {
                    None
                },
                None => None,
            },
        }
    }
}

/// The state of a poll right after `commands` were sent to the running
/// workers of `workers`.
pub open spec fn sent_state(workers: Seq<Worker>, commands: Seq<CommandView>) -> StatusView {
    StatusView::Collecting {
        workers,
        expecting: ids_of(commands),
        table: pending_table(commands, running_workers(workers)),
    }
}

/// The status that the table shows for a command after the events.
pub open spec fn shown_status(events: Seq<Option<AnswerView>>, id: Seq<char>) -> AnswerStatus {
    match answered(events, id) {
        Some(status) => status,
        None => AnswerStatus::Processing,
    }
}

proof fn lemma_answers_advance(
    commands: Seq<CommandView>,
    events: Seq<Option<AnswerView>>,
    expecting: Set<Seq<char>>,
    table: Seq<PendingView>,
    still: Set<Seq<char>>,
    after: Seq<PendingView>,
)
    requires
        events.len() > 0,
        forall|i: int|
            0 <= i < commands.len() ==> (#[trigger] table[i]).status == shown_status(
                events.drop_last(),
                commands[i].id,
            ),
        forall|i: int|
            0 <= i < commands.len() ==> (expecting.contains(#[trigger] commands[i].id) <==> answered(
                events.drop_last(),
                commands[i].id,
            ) is None),
        forall|i: int|
            0 <= i < commands.len() ==> (#[trigger] after[i]).status == match brought(
                events.last(),
                expecting,
                commands[i].id,
            ) {
                Some(status) => status,
                None => table[i].status,
            },
        forall|id: Seq<char>|
            #[trigger] still.contains(id) <==> expecting.contains(id) && brought(events.last(), expecting, id)
                is None,
    ensures
        forall|i: int|
            0 <= i < commands.len() ==> (#[trigger] after[i]).status == shown_status(events, commands[i].id),
        forall|i: int|
            0 <= i < commands.len() ==> (still.contains(#[trigger] commands[i].id) <==> answered(
                events,
                commands[i].id,
            ) is None),
{
    assert forall|i: int| 0 <= i < commands.len() implies (#[trigger] after[i]).status == shown_status(
        events,
        commands[i].id,
    ) by {
        assert(table[i].status == shown_status(events.drop_last(), commands[i].id));
        assert(expecting.contains(commands[i].id) <==> answered(events.drop_last(), commands[i].id) is None);
    }
    assert forall|i: int| 0 <= i < commands.len() implies (still.contains(#[trigger] commands[i].id)
        <==> answered(events, commands[i].id) is None) by {
        assert(expecting.contains(commands[i].id) <==> answered(events.drop_last(), commands[i].id) is None);
        assert(still.contains(commands[i].id) <==> expecting.contains(commands[i].id) && brought(
            events.last(),
            expecting,
            commands[i].id,
        ) is None);
    }
}

proof fn lemma_collection_prefix(
    start: StatusView,
    events: Seq<Option<AnswerView>>,
    steps: Seq<StatusStepView>,
)
    requires
        is_collection(start, events, steps),
        steps.len() > 0,
    ensures
        is_collection(start, events.drop_last(), steps.drop_last()),
        fits(reached(start, steps.drop_last()), events.last(), steps.last()),
{
    let earlier = steps.drop_last();
    let earlier_events = events.drop_last();
    let n = steps.len() - 1;
    assert forall|i: int| 0 <= i < earlier_events.len() implies fits(
        if i == 0 {
            start
        } else {
            earlier[i - 1].state
        },
        #[trigger] earlier_events[i],
        earlier[i],
    ) by {
        assert(earlier_events[i] == events[i]);
        assert(earlier[i] == steps[i]);
        if i > 0 {
            assert(earlier[i - 1] == steps[i - 1]);
        }
    }
    assert(events.last() == events[n]);
    if n > 0 {
        assert(earlier.last() == steps[n - 1]);
    }
}

/// Whatever comes on the channel after the status orders were sent, in
/// whatever order, the table holds for every order the status of the first
/// terminal answer to it, and the order is in flight exactly as long as
/// there is none. Answers that report processing and answers to other
/// commands change nothing.
pub proof fn lemma_collection_records_answers(
    workers: Seq<Worker>,
    commands: Seq<CommandView>,
    events: Seq<Option<AnswerView>>,
    steps: Seq<StatusStepView>,
)
    requires
        distinct_ids(commands),
        commands.len() == running_workers(workers).len(),
        is_collection(sent_state(workers, commands), events, steps),
    ensures
        reached(sent_state(workers, commands), steps) is Collecting,
        reached(sent_state(workers, commands), steps)->workers == workers,
        tracks(
            reached(sent_state(workers, commands), steps)->table,
            reached(sent_state(workers, commands), steps)->expecting,
            commands,
            running_workers(workers),
        ),
        forall|i: int|
            0 <= i < commands.len() ==> (#[trigger] reached(sent_state(workers, commands), steps)->table[i]).status
                == shown_status(events, commands[i].id),
        forall|i: int|
            0 <= i < commands.len() ==> (reached(sent_state(workers, commands), steps)->expecting.contains(
                #[trigger] commands[i].id,
            ) <==> answered(events, commands[i].id) is None),
    decreases steps.len(),
{
    let start = sent_state(workers, commands);
    let running = running_workers(workers);
    if steps.len() == 0 {
        assert forall|i: int| 0 <= i < commands.len() implies ids_of(commands).contains(
            #[trigger] commands[i].id,
        ) by {}
    } else {
        lemma_collection_prefix(start, events, steps);
        lemma_collection_records_answers(workers, commands, events.drop_last(), steps.drop_last());
        let before = reached(start, steps.drop_last());
        let last = steps.last();
        assert(step_fits(before, events.last(), last)) by {
            reveal(fits);
        }
        lemma_step_tracks(
            workers,
            before->expecting,
            before->table,
            commands,
            running,
            events.last(),
            last,
        );
        lemma_answers_advance(
            commands,
            events,
            before->expecting,
            before->table,
            last.state->expecting,
            last.state->table,
        );
    }
}

/// The report of a poll. Where the workers of the list have distinct
/// identifiers, then whatever came on the channel, and in whatever order:
/// the cell of a running worker shows `ok` or `error` as the first terminal
/// answer to its order said, and `timeout` where none has come and the
/// wait was cut short; the cell of a worker that is not running is empty.
pub proof fn lemma_report_of_collection(
    workers: Seq<Worker>,
    commands: Seq<CommandView>,
    events: Seq<Option<AnswerView>>,
    steps: Seq<StatusStepView>,
    finished: bool,
)
    requires
        distinct_workers(workers),
        distinct_ids(commands),
        commands.len() == running_workers(workers).len(),
        is_collection(sent_state(workers, commands), events, steps),
    ensures
        reached(sent_state(workers, commands), steps) is Collecting,
        forall|i: int|
            0 <= i < commands.len() ==> answer_cell(
                #[trigger] running_workers(workers)[i],
                Some(reached(sent_state(workers, commands), steps)->table),
                finished,
            ) == status_cell(shown_status(events, commands[i].id), finished),
        forall|j: int|
            0 <= j < workers.len() && (#[trigger] workers[j]).run_state != RunState::Running ==> answer_cell(
                workers[j],
                Some(reached(sent_state(workers, commands), steps)->table),
                finished,
            ) == ""@,
{
    let last = reached(sent_state(workers, commands), steps);
    lemma_collection_records_answers(workers, commands, events, steps);
    lemma_answer_cells(workers, last->expecting, last->table, commands, finished);
    assert forall|i: int| 0 <= i < commands.len() implies answer_cell(
        #[trigger] running_workers(workers)[i],
        Some(last->table),
        finished,
    ) == status_cell(shown_status(events, commands[i].id), finished) by {
        assert(last->table[i].status == shown_status(events, commands[i].id));
    }
}

} // verus!
