//! Replacing every running worker and then the supervising process, without
//! dropping connections.
//!
//! The operation asks for the list of workers. For each running worker it
//! then sends the launch of a replacement and, to that worker, a soft stop.
//! It waits until every one of these commands has had its terminal answer,
//! and only then asks the supervising process to upgrade itself.

use vstd::prelude::*;
use vstd::string::*;
use crate::command::exchange::{
    classify, event_view, failure_line, fixed_line, prefixed_line, verdict, Output, OutputView, Verdict,
};
use crate::command::ids::{generate_distinct_id, generate_tagged_id, has_tag, is_tagged_id};
use crate::command::idset::IdSet;
use crate::command::messages::{
    command_views, distinct_ids, ids_of, lemma_distinct_push, lemma_ids_of_push, running_workers,
    select_running, Answer, AnswerPayload,
    AnswerPayloadView, AnswerStatus, AnswerView, Command, CommandKind, CommandKindView,
    CommandView, Order, OrderView, Worker,
};

verus! {

/// Where an upgrade stands.
#[derive(Debug, Clone, PartialEq, Eq)]
pub enum Upgrade {
    /// The list of workers was asked for under `id`.
    Listing { id: String },
    /// Launches and soft stops are in flight.
    Draining { launching: IdSet, stopping: IdSet },
    /// The supervising process was asked to upgrade itself under `id`.
    Promoting { id: String },
    /// The operation is over; `upgraded` says whether the supervising
    /// process confirmed its upgrade.
    Finished { upgraded: bool },
}

/// The state of an upgrade, as a value.
pub enum UpgradeView {
    Listing { id: Seq<char> },
    Draining { launching: Set<Seq<char>>, stopping: Set<Seq<char>> },
    Promoting { id: Seq<char> },
    Finished { upgraded: bool },
}

impl View for Upgrade {
    type V = UpgradeView;

    open spec fn view(&self) -> UpgradeView {
        match self {
            Upgrade::Listing { id } => UpgradeView::Listing { id: id@ },
            Upgrade::Draining { launching, stopping } => UpgradeView::Draining {
                launching: launching@,
                stopping: stopping@,
            },
            Upgrade::Promoting { id } => UpgradeView::Promoting { id: id@ },
            Upgrade::Finished { upgraded } => UpgradeView::Finished { upgraded: *upgraded },
        }
    }
}

/// What a step of the upgrade leaves: the new state, the lines to show
/// first, the commands to send then, in this order, and the lines to show
/// once they are sent.
#[derive(Debug, Clone, PartialEq, Eq)]
pub struct UpgradeStep {
    pub state: Upgrade,
    pub outputs: Vec<Output>,
    pub commands: Vec<Command>,
    pub confirmations: Vec<Output>,
}

/// A step of the upgrade, as a value.
pub struct UpgradeStepView {
    pub state: UpgradeView,
    pub outputs: Seq<OutputView>,
    pub commands: Seq<CommandView>,
    pub confirmations: Seq<OutputView>,
}

/// What a sequence of outputs shows, as values.
pub open spec fn output_views(outputs: Seq<Output>) -> Seq<OutputView> {
    outputs.map_values(|o: Output| o@)
}

impl View for UpgradeStep {
    type V = UpgradeStepView;

    open spec fn view(&self) -> UpgradeStepView {
        UpgradeStepView {
            state: self.state@,
            commands: command_views(self.commands@),
            outputs: output_views(self.outputs@),
            confirmations: output_views(self.confirmations@),
        }
    }
}

/// Whether `c` asks for the list of workers.
pub open spec fn is_listing(c: CommandView) -> bool {
    &&& c.kind == CommandKindView::ListWorkers
    &&& c.target_worker is None
    &&& is_tagged_id("LIST-WORKERS"@, c.id)
}

/// Whether `c` launches a replacement worker.
pub open spec fn is_launch(c: CommandView) -> bool {
    &&& c.kind == CommandKindView::LaunchWorker("BLAH"@)
    &&& c.target_worker is None
    &&& has_tag("LAUNCH-WORKER"@, c.id)
}

/// Whether `c` is a soft stop sent to the worker `w`.
pub open spec fn is_soft_stop_of(c: CommandView, w: Worker) -> bool {
    &&& c.kind == CommandKindView::ProxyConfiguration(OrderView::SoftStop)
    &&& c.target_worker == Some(w.id)
    &&& has_tag("SOFT-STOP-WORKER"@, c.id)
}

/// Whether `c` asks the supervising process to upgrade itself.
pub open spec fn is_promotion(c: CommandView) -> bool {
    &&& c.kind == CommandKindView::UpgradeMaster
    &&& c.target_worker is None
    &&& is_tagged_id("UPGRADE-MASTER"@, c.id)
}

/// Whether `commands` replaces the workers `running`: one launch for each,
/// then one soft stop for each, sent to the workers in their order, no two
/// of them under the same identifier.
pub open spec fn is_replacement(commands: Seq<CommandView>, running: Seq<Worker>) -> bool {
    &&& commands.len() == 2 * running.len()
    &&& distinct_ids(commands)
    &&& forall|i: int| 0 <= i < running.len() ==> is_launch(#[trigger] commands[i])
    &&& forall|i: int|
        0 <= i < running.len() ==> is_soft_stop_of(#[trigger] commands[running.len() + i], running[i])
}

/// A set of identifiers in flight after an event: a terminal answer removes
/// its identifier, anything else leaves the set as it is.
pub open spec fn after_event(in_flight: Set<Seq<char>>, event: Option<AnswerView>) -> Set<Seq<char>> {
    match event {
        Some(answer) => if answer.status.is_terminal() {
            in_flight.remove(answer.id)
        } else {
            in_flight
        },
        None => in_flight,
    }
}

/// The lines that say which commands a terminal answer has concluded.
pub open spec fn conclusion_lines(
    launching: Set<Seq<char>>,
    stopping: Set<Seq<char>>,
    id: Seq<char>,
) -> Seq<OutputView> {
    (if launching.contains(id) {
        seq![OutputView::Line("launch message with ID "@ + id + " done"@)]
    } else {
        Seq::empty()
    }) + (if stopping.contains(id) {
        seq![OutputView::Line("stop message with ID "@ + id + " done"@)]
    } else {
        Seq::empty()
    })
}

/// The lines shown for an event while launches and soft stops are in flight.
pub open spec fn draining_lines(
    launching: Set<Seq<char>>,
    stopping: Set<Seq<char>>,
    event: Option<AnswerView>,
) -> Seq<OutputView> {
    match event {
        None => seq![OutputView::Line("the proxy didn't answer"@)],
        Some(answer) => match answer.status {
            AnswerStatus::Processing => Seq::empty(),
            AnswerStatus::Error => seq![
                OutputView::Line("error for message["@ + answer.id + "]: "@ + answer.message),
            ] + conclusion_lines(launching, stopping, answer.id),
            AnswerStatus::Done => conclusion_lines(launching, stopping, answer.id),
        },
    }
}

/// The line shown before the supervising process is asked to upgrade
/// itself.
pub open spec fn promotion_lines() -> Seq<OutputView> {
    seq![OutputView::Line("worker upgrade done"@)]
}

/// The line shown once the supervising process was asked to upgrade itself
/// under `id`.
pub open spec fn promotion_confirmations(id: Seq<char>) -> Seq<OutputView> {
    seq![OutputView::Line("master upgrade message sent: "@ + id)]
}

/// A step that ends the operation without an upgrade.
pub open spec fn given_up(outputs: Seq<OutputView>) -> UpgradeStepView {
    UpgradeStepView {
        state: UpgradeView::Finished { upgraded: false },
        commands: Seq::empty(),
        outputs,
        confirmations: Seq::empty(),
    }
}

/// Whether `step` asks the supervising process to upgrade itself, after
/// showing `shown`.
pub open spec fn promotes(shown: Seq<OutputView>, step: UpgradeStepView) -> bool {
    &&& step.commands.len() == 1
    &&& is_promotion(step.commands[0])
    &&& step.state == UpgradeView::Promoting { id: step.commands[0].id }
    &&& step.outputs == shown + promotion_lines()
    &&& step.confirmations == promotion_confirmations(step.commands[0].id)
}

/// Whether `step` replaces the workers `running`. With none to replace it
/// goes on to the supervising process at once.
pub open spec fn replaces(running: Seq<Worker>, step: UpgradeStepView) -> bool {
    if running.len() == 0 {
        promotes(Seq::empty(), step)
    } else {
        &&& is_replacement(step.commands, running)
        &&& step.state == UpgradeView::Draining {
            launching: ids_of(step.commands.take(running.len() as int)),
            stopping: ids_of(step.commands.skip(running.len() as int)),
        }
        &&& step.outputs == Seq::<OutputView>::empty()
        &&& step.confirmations == Seq::<OutputView>::empty()
    }
}

/// Whether `step` is a step of the upgrade from the state `pre` on `event`.
/// Everything is fixed but the random part of the new identifiers.
pub open spec fn step_fits(pre: UpgradeView, event: Option<AnswerView>, step: UpgradeStepView) -> bool {
    match pre {
        UpgradeView::Listing { id } => match verdict(id, event) {
            Verdict::Silence => step == given_up(seq![OutputView::Line("the proxy didn't answer"@)]),
            Verdict::Mismatch => step == given_up(seq![OutputView::InvalidAnswer(event->0)]),
            Verdict::Progress => step == given_up(
                seq![OutputView::Line("should have obtained an answer immediately"@)],
            ),
            Verdict::Failure => step == given_up(
                seq![OutputView::Line("could not get the worker list: "@ + event->0.message)],
            ),
            Verdict::Success => match event->0.data {
                Some(AnswerPayloadView::Workers(workers)) => replaces(running_workers(workers), step),
                _ => step == given_up(Seq::empty()),
            },
        },
        UpgradeView::Draining { launching, stopping } => {
            let shown = draining_lines(launching, stopping, event);
            let still_launching = after_event(launching, event);
            let still_stopping = after_event(stopping, event);
            if still_launching == Set::<Seq<char>>::empty() && still_stopping == Set::<Seq<char>>::empty() {
                promotes(shown, step)
            } else {
                step == (UpgradeStepView {
                    state: UpgradeView::Draining { launching: still_launching, stopping: still_stopping },
                    commands: Seq::empty(),
                    outputs: shown,
                    confirmations: Seq::empty(),
                })
            }
        },
        UpgradeView::Promoting { id } => match verdict(id, event) {
            Verdict::Silence => step == (UpgradeStepView {
                state: pre,
                commands: Seq::empty(),
                outputs: seq![OutputView::Line("the proxy didn't answer"@)],
                confirmations: Seq::empty(),
            }),
            Verdict::Mismatch => step == given_up(seq![OutputView::InvalidAnswer(event->0)]),
            Verdict::Progress => step == (UpgradeStepView {
                state: pre,
                commands: Seq::empty(),
                outputs: seq![OutputView::Line("master is processing: "@ + event->0.message)],
                confirmations: Seq::empty(),
            }),
            Verdict::Failure => step == given_up(
                seq![OutputView::Line("could not upgrade the master: "@ + event->0.message)],
            ),
            Verdict::Success => step == (UpgradeStepView {
                state: UpgradeView::Finished { upgraded: true },
                commands: Seq::empty(),
                outputs: seq![OutputView::Line("successfully upgraded the master: "@ + event->0.message)],
                confirmations: Seq::empty(),
            }),
        },
        UpgradeView::Finished { upgraded } => step == (UpgradeStepView {
            state: pre,
            commands: Seq::empty(),
            outputs: Seq::empty(),
            confirmations: Seq::empty(),
        }),
    }
}

/// Starts an upgrade: the state to keep and the command to send first.
pub fn upgrade() -> (res: (Upgrade, Command))
    ensures
        is_listing(res.1@),
        res.0@ == (UpgradeView::Listing { id: res.1@.id }),
{
    let id = generate_tagged_id("LIST-WORKERS");
    let command = Command::new(id.clone(), CommandKind::ListWorkers, None);
    (Upgrade::Listing { id }, command)
}

fn given_up_with(output: Output) -> (res: UpgradeStep)
    ensures
        res@ == given_up(seq![output@]),
{
    let mut outputs: Vec<Output> = Vec::new();
    outputs.push(output);
    let res = UpgradeStep {
        state: Upgrade::Finished { upgraded: false },
        outputs,
        commands: Vec::new(),
        confirmations: Vec::new(),
    };
    assert(res@.commands =~= Seq::empty());
    assert(res@.confirmations =~= Seq::empty());
    assert(res@.outputs =~= seq![output@]);
    res
}

fn staying(state: Upgrade, output: Output) -> (res: UpgradeStep)
    ensures
        res@ == (UpgradeStepView {
            state: state@,
            outputs: seq![output@],
            commands: Seq::empty(),
            confirmations: Seq::empty(),
        }),
{
    let mut outputs: Vec<Output> = Vec::new();
    outputs.push(output);
    let res = UpgradeStep { state, outputs, commands: Vec::new(), confirmations: Vec::new() };
    assert(res@.commands =~= Seq::empty());
    assert(res@.confirmations =~= Seq::empty());
    assert(res@.outputs =~= seq![output@]);
    res
}

/// Goes on to the supervising process, after the lines in `outputs`.
fn promote(outputs: Vec<Output>) -> (res: UpgradeStep)
    ensures
        promotes(output_views(outputs@), res@),
{
    let mut outputs = outputs;
    let ghost shown = output_views(outputs@);
    let id = generate_tagged_id("UPGRADE-MASTER");
    outputs.push(fixed_line("worker upgrade done"));
    let mut confirmations: Vec<Output> = Vec::new();
    confirmations.push(prefixed_line("master upgrade message sent: ", &id));
    let mut commands: Vec<Command> = Vec::new();
    commands.push(Command::new(id.clone(), CommandKind::UpgradeMaster, None));
    let res = UpgradeStep { state: Upgrade::Promoting { id }, outputs, commands, confirmations };
    assert(res@.outputs =~= shown + promotion_lines());
    assert(res@.confirmations =~= promotion_confirmations(res@.commands[0].id));
    res
}

/// Sends the launch of a replacement and a soft stop for each running
/// worker.
fn replace(running: &Vec<Worker>) -> (res: UpgradeStep)
    requires
        running.len() > 0,
    ensures
        replaces(running@, res@),
{
    let n = running.len();
    let mut commands: Vec<Command> = Vec::new();
    let mut sent = IdSet::new();
    let mut launching = IdSet::new();
    let mut stopping = IdSet::new();
    let mut i: usize = 0;
    assert(sent@ =~= ids_of(command_views(commands@)));
    while i < n
        invariant
            i <= n,
            n == running.len(),
            commands@.len() == i,
            forall|k: int| 0 <= k < i ==> is_launch(#[trigger] command_views(commands@)[k]),
            launching@ == ids_of(command_views(commands@)),
            sent@ == ids_of(command_views(commands@)),
            distinct_ids(command_views(commands@)),
        decreases n - i,
    {
        let id = generate_distinct_id("LAUNCH-WORKER", &sent);
        let ghost before = command_views(commands@);
        let command = Command::new(id.clone(), CommandKind::LaunchWorker(String::from_str("BLAH")), None);
        commands.push(command);
        launching.insert(id.clone());
        sent.insert(id);
        assert(command_views(commands@) =~= before.push(command@));
        proof {
            lemma_ids_of_push(before, command@);
            lemma_distinct_push(before, command@);
        }
        i += 1;
    }
    let ghost launches = command_views(commands@);
    let mut j: usize = 0;
    while j < n
        invariant
            j <= n,
            n == running.len(),
            commands@.len() == n + j,
            launches.len() == n,
            command_views(commands@).take(n as int) == launches,
            forall|k: int| 0 <= k < n ==> is_launch(#[trigger] launches[k]),
            forall|k: int|
                0 <= k < j ==> is_soft_stop_of(#[trigger] command_views(commands@)[n + k], running@[k]),
            stopping@ == ids_of(command_views(commands@).skip(n as int)),
            sent@ == ids_of(command_views(commands@)),
            distinct_ids(command_views(commands@)),
        decreases n - j,
    {
        let id = generate_distinct_id("SOFT-STOP-WORKER", &sent);
        let ghost before = command_views(commands@);
        let command = Command::new(
            id.clone(),
            CommandKind::ProxyConfiguration(Order::SoftStop),
            Some(running[j].id),
        );
        commands.push(command);
        stopping.insert(id.clone());
        sent.insert(id);
        assert(command_views(commands@) =~= before.push(command@));
        proof {
            assert(command_views(commands@).skip(n as int) =~= before.skip(n as int).push(command@));
            lemma_ids_of_push(before.skip(n as int), command@);
            lemma_ids_of_push(before, command@);
            lemma_distinct_push(before, command@);
        }
        j += 1;
    }
    let res = UpgradeStep {
        state: Upgrade::Draining { launching, stopping },
        outputs: Vec::new(),
        commands,
        confirmations: Vec::new(),
    };
    proof {
        assert(res@.outputs =~= Seq::<OutputView>::empty());
        assert forall|k: int| 0 <= k < n implies is_launch(#[trigger] res@.commands[k]) by {
            assert(res@.commands[k] == launches[k]);
        }
    }
    res
}

/// The line that reports the conclusion of a command in flight.
fn conclusion_line(beginning: &str, id: &String) -> (res: Output)
    ensures
        res@ == OutputView::Line(beginning@ + id@ + " done"@),
{
    let mut l = String::from_str(beginning);
    l.append(id.as_str());
    l.append(" done");
    Output::Line(l)
}

impl Upgrade {
    /// Whether the operation is over.
    pub fn finished(&self) -> (res: bool)
        ensures
            res == (self@ is Finished),
    {
        match self {
            Upgrade::Finished { .. } => true,
            _ => false,
        }
    }

    /// Takes the upgrade one event further.
    ///
    /// While the list of workers or the confirmation of the supervising
    /// process is awaited, an answer to another command ends the operation.
    /// While launches and soft stops are in flight, a terminal answer
    /// removes its identifier from those in flight, whether it reports
    /// success or failure, and an answer to anything else is passed over.
    /// The supervising process is asked to upgrade itself in the step after
    /// which nothing is in flight any more, and in no other.
    pub fn step(self, event: Option<Answer>) -> (res: UpgradeStep)
        ensures
            step_fits(self@, event_view(event), res@),
    {
        match self {
            Upgrade::Listing { id } => {
                let verdict = classify(&id, &event);
                match event {
                    None => given_up_with(fixed_line("the proxy didn't answer")),
                    Some(answer) => match verdict {
                        Verdict::Mismatch => given_up_with(Output::InvalidAnswer(answer)),
                        Verdict::Progress => given_up_with(
                            fixed_line("should have obtained an answer immediately"),
                        ),
                        Verdict::Failure => given_up_with(
                            prefixed_line("could not get the worker list: ", &answer.message),
                        ),
                        _ => match answer.data {
                            Some(AnswerPayload::Workers(workers)) => {
                                let running = select_running(&workers);
                                if running.len() == 0 {
                                    promote(Vec::new())
                                } else {
                                    replace(&running)
                                }
                            },
                            _ => {
                                let res = UpgradeStep {
                                    state: Upgrade::Finished { upgraded: false },
                                    commands: Vec::new(),
                                    outputs: Vec::new(),
                                    confirmations: Vec::new(),
                                };
                                assert(res@.commands =~= Seq::empty());
                                assert(res@.outputs =~= Seq::empty());
                                res
                            },
                        },
                    },
                }
            },
            Upgrade::Draining { launching, stopping } => {
                let mut launching = launching;
                let mut stopping = stopping;
                let ghost was_launching = launching@;
                let ghost was_stopping = stopping@;
                let mut outputs: Vec<Output> = Vec::new();
                assert(output_views(outputs@) =~= Seq::empty());
                match &event {
                    None => {
                        outputs.push(fixed_line("the proxy didn't answer"));
                        assert(output_views(outputs@) =~= draining_lines(was_launching, was_stopping, None));
                    },
                    Some(answer) => {
                        if answer.status.terminal() {
                            if !(answer.status == AnswerStatus::Done) {
                                outputs.push(failure_line(answer));
                            }
                            if launching.remove(&answer.id) {
                                outputs.push(conclusion_line("launch message with ID ", &answer.id));
                            }
                            if stopping.remove(&answer.id) {
                                outputs.push(conclusion_line("stop message with ID ", &answer.id));
                            }
                            assert(output_views(outputs@) =~= draining_lines(
                                was_launching,
                                was_stopping,
                                Some(answer@),
                            ));
                        }
                    },
                }
                if launching.is_empty() && stopping.is_empty() {
                    promote(outputs)
                } else {
                    let res = UpgradeStep {
                        state: Upgrade::Draining { launching, stopping },
                        commands: Vec::new(),
                        outputs,
                        confirmations: Vec::new(),
                    };
                    assert(res@.commands =~= Seq::empty());
                    res
                }
            },
            Upgrade::Promoting { id } => {
                let verdict = classify(&id, &event);
                match event {
                    None => staying(Upgrade::Promoting { id }, fixed_line("the proxy didn't answer")),
                    Some(answer) => match verdict {
                        Verdict::Mismatch => given_up_with(Output::InvalidAnswer(answer)),
                        Verdict::Progress => staying(
                            Upgrade::Promoting { id },
                            prefixed_line("master is processing: ", &answer.message),
                        ),
                        Verdict::Failure => given_up_with(
                            prefixed_line("could not upgrade the master: ", &answer.message),
                        ),
                        _ => staying(
                            Upgrade::Finished { upgraded: true },
                            prefixed_line("successfully upgraded the master: ", &answer.message),
                        ),
                    },
                }
            },
            Upgrade::Finished { upgraded } => {
                let res = UpgradeStep {
                    state: Upgrade::Finished { upgraded },
                    commands: Vec::new(),
                    outputs: Vec::new(),
                    confirmations: Vec::new(),
                };
                assert(res@.commands =~= Seq::empty());
                assert(res@.outputs =~= Seq::empty());
                res
            },
        }
    }
}

/// Whether `steps` are the steps of an upgrade that starts in `start` and
/// is handed `events`, one after the other.
pub open spec fn is_run(
    start: UpgradeView,
    events: Seq<Option<AnswerView>>,
    steps: Seq<UpgradeStepView>,
) -> bool {
    &&& steps.len() == events.len()
    &&& forall|i: int|
        0 <= i < steps.len() ==> step_fits(
            if i == 0 {
                start
            } else {
                steps[i - 1].state
            },
            events[i],
            #[trigger] steps[i],
        )
}

/// The commands that the steps send, in the order of sending.
pub open spec fn sent(steps: Seq<UpgradeStepView>) -> Seq<CommandView>
    decreases steps.len(),
{
    if steps.len() == 0 {
        Seq::empty()
    } else {
        sent(steps.drop_last()) + steps.last().commands
    }
}

/// The running workers that the first event lists, where it is the
/// successful answer to the command under `id` and carries a list.
pub open spec fn listed(id: Seq<char>, events: Seq<Option<AnswerView>>) -> Option<Seq<Worker>> {
    if events.len() > 0 && verdict(id, events[0]) == Verdict::Success {
        match events[0]->0.data {
            Some(AnswerPayloadView::Workers(workers)) => Some(running_workers(workers)),
            _ => None,
        }
    } else {
        None
    }
}

/// Whether `commands` is the replacement of the workers `running` and then
/// the request to the supervising process.
pub open spec fn is_full_upgrade(commands: Seq<CommandView>, running: Seq<Worker>) -> bool {
    &&& commands.len() == 2 * running.len() + 1
    &&& is_replacement(commands.take(2 * running.len() as int), running)
    &&& is_promotion(commands[2 * running.len() as int])
}

/// What holds of the commands sent so far, by the state reached.
spec fn sent_in_order(
    id: Seq<char>,
    events: Seq<Option<AnswerView>>,
    steps: Seq<UpgradeStepView>,
) -> bool {
    let state = if steps.len() == 0 {
        UpgradeView::Listing { id }
    } else {
        steps.last().state
    };
    let all = sent(steps);
    match state {
        UpgradeView::Listing { .. } => all.len() == 0,
        UpgradeView::Draining { .. } => listed(id, events) is Some && is_replacement(
            all,
            listed(id, events)->0,
        ),
        UpgradeView::Promoting { .. } => listed(id, events) is Some && is_full_upgrade(
            all,
            listed(id, events)->0,
        ),
        UpgradeView::Finished { .. } => all.len() == 0 || (listed(id, events) is Some && is_full_upgrade(
            all,
            listed(id, events)->0,
        )),
    }
}

proof fn lemma_sent_in_order(id: Seq<char>, events: Seq<Option<AnswerView>>, steps: Seq<UpgradeStepView>)
    requires
        is_run(UpgradeView::Listing { id }, events, steps),
    ensures
        sent_in_order(id, events, steps),
    decreases steps.len(),
{
    if steps.len() > 0 {
        let earlier_events = events.drop_last();
        let earlier = steps.drop_last();
        let last = steps.last();
        let n = steps.len() - 1;
        assert(is_run(UpgradeView::Listing { id }, earlier_events, earlier)) by {
            assert forall|i: int| 0 <= i < earlier.len() implies step_fits(
                if i == 0 {
                    UpgradeView::Listing { id }
                } else {
                    earlier[i - 1].state
                },
                earlier_events[i],
                #[trigger] earlier[i],
            ) by {
                assert(earlier[i] == steps[i]);
            }
        }
        lemma_sent_in_order(id, earlier_events, earlier);
        let before = if n == 0 {
            UpgradeView::Listing { id }
        } else {
            steps[n - 1].state
        };
        assert(step_fits(before, events[n], steps[n]));
        assert(n > 0 ==> earlier.last() == steps[n - 1]);
        assert(n > 0 ==> earlier_events[0] == events[0]);
        assert(n > 0 ==> listed(id, earlier_events) == listed(id, events));
        let had = sent(earlier);
        let all = sent(steps);
        assert(all == had + last.commands);
        match before {
            UpgradeView::Listing { .. } => {
                assert(n == 0);
                assert(had.len() == 0);
                assert(all =~= last.commands);
                if last.commands.len() > 0 {
                    let running = listed(id, events)->0;
                    if running.len() == 0 {
                        assert(all.take(0) =~= Seq::empty());
                    }
                }
            },
            UpgradeView::Draining { .. } => {
                let running = listed(id, events)->0;
                if last.commands.len() > 0 {
                    assert(all.take(2 * running.len() as int) =~= had);
                } else {
                    assert(all =~= had);
                }
            },
            UpgradeView::Promoting { .. } => {
                assert(all =~= had);
            },
            UpgradeView::Finished { .. } => {
                assert(all =~= had);
            },
        }
    }
}

/// In every run of an upgrade the request to the supervising process is
/// the last command sent, and what was sent before it is the replacement of
/// the running workers that were listed: one launch for each, then one soft
/// stop to each. So with two running workers exactly two launches and two
/// soft stops are sent before it.
pub proof fn lemma_promotion_follows_replacement(
    id: Seq<char>,
    events: Seq<Option<AnswerView>>,
    steps: Seq<UpgradeStepView>,
    k: int,
)
    requires
        is_run(UpgradeView::Listing { id }, events, steps),
        0 <= k < sent(steps).len(),
        sent(steps)[k].kind == CommandKindView::UpgradeMaster,
    ensures
        listed(id, events) is Some,
        is_replacement(sent(steps).take(k), listed(id, events)->0),
        k == 2 * listed(id, events)->0.len(),
        k == sent(steps).len() - 1,
{
    lemma_sent_in_order(id, events, steps);
    let all = sent(steps);
    let running = listed(id, events)->0;
    let state = steps.last().state;
    assert(steps.len() > 0);
    if is_replacement(all, running) && all.len() == 2 * running.len() {
        if k < running.len() {
            assert(is_launch(all[k]));
        } else {
            assert(is_soft_stop_of(all[running.len() + (k - running.len())], running[k - running.len()]));
        }
    }
    if is_full_upgrade(all, running) {
        let replacement = all.take(2 * running.len() as int);
        if k < running.len() {
            assert(is_launch(replacement[k]));
        } else if k < 2 * running.len() {
            assert(is_soft_stop_of(
                replacement[running.len() + (k - running.len())],
                running[k - running.len()],
            ));
        }
    }
}

/// The supervising process is asked to upgrade itself only in a step after
/// which no launch and no soft stop is in flight: a step from a state in
/// which some are, and in which some remain after the event, sends nothing.
pub proof fn lemma_no_promotion_while_in_flight(
    launching: Set<Seq<char>>,
    stopping: Set<Seq<char>>,
    event: Option<AnswerView>,
    step: UpgradeStepView,
)
    requires
        step_fits(UpgradeView::Draining { launching, stopping }, event, step),
        after_event(launching, event) != Set::<Seq<char>>::empty() || after_event(stopping, event)
            != Set::<Seq<char>>::empty(),
    ensures
        step.commands.len() == 0,
        step.state == (UpgradeView::Draining {
            launching: after_event(launching, event),
            stopping: after_event(stopping, event),
        }),
{
}

/// While the list of workers or the confirmation of the supervising
/// process is awaited, an answer to another command ends the upgrade: no
/// command is sent, and nothing is concluded but that the answer was not
/// the awaited one.
pub proof fn lemma_mismatch_ends_upgrade(pre: UpgradeView, answer: AnswerView, step: UpgradeStepView)
    requires
        match pre {
            UpgradeView::Listing { id } => id != answer.id,
            UpgradeView::Promoting { id } => id != answer.id,
            _ => false,
        },
        step_fits(pre, Some(answer), step),
    ensures
        step == given_up(seq![OutputView::InvalidAnswer(answer)]),
{
}

/// While launches and soft stops are in flight, an answer to a command
/// that is not among them changes nothing and sends nothing.
pub proof fn lemma_untracked_answer_is_passed_over(
    launching: Set<Seq<char>>,
    stopping: Set<Seq<char>>,
    answer: AnswerView,
    step: UpgradeStepView,
)
    requires
        !launching.contains(answer.id),
        !stopping.contains(answer.id),
        launching != Set::<Seq<char>>::empty() || stopping != Set::<Seq<char>>::empty(),
        step_fits(UpgradeView::Draining { launching, stopping }, Some(answer), step),
    ensures
        step.state == (UpgradeView::Draining { launching, stopping }),
        step.commands.len() == 0,
{
    assert(launching.remove(answer.id) =~= launching);
    assert(stopping.remove(answer.id) =~= stopping);
}

} // verus!
