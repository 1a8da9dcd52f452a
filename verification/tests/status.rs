use sozu_core::command::exchange::{Flow, Output};
use sozu_core::command::messages::{
    Answer, AnswerPayload, AnswerStatus, CommandKind, Order, RunState, Worker,
};
use sozu_core::command::status::{run_state_text, status_report, Pending, Status, StatusStep};
use sozu_core::command::status;
use sozu_core::command::tables::Table;

fn answer(id: &str, status: AnswerStatus, message: &str) -> Answer {
    Answer { id: id.to_string(), status, message: message.to_string(), data: None }
}

fn worker_list(id: &str, workers: Vec<Worker>) -> Answer {
    Answer {
        id: id.to_string(),
        status: AnswerStatus::Done,
        message: String::new(),
        data: Some(AnswerPayload::Workers(workers)),
    }
}

fn three_workers() -> Vec<Worker> {
    vec![
        Worker { id: 0, pid: 4001, run_state: RunState::Running },
        Worker { id: 1, pid: 4002, run_state: RunState::Stopped },
        Worker { id: 2, pid: 4003, run_state: RunState::Running },
    ]
}

fn text(line: &str) -> Output {
    Output::Line(line.to_string())
}

fn table(rows: &[[&str; 4]]) -> Table {
    Table { rows: rows.iter().map(|r| r.iter().map(|c| c.to_string()).collect()).collect() }
}

fn fanned_out(workers: Vec<Worker>) -> StatusStep {
    let (state, first) = status();
    state.step(Some(worker_list(&first.id, workers)))
}

#[test]
fn status_starts_by_listing_workers() {
    let (state, command) = status();
    assert!(command.id.starts_with("ID-"));
    assert_eq!(command.id.len(), 9);
    assert_eq!(command.kind, CommandKind::ListWorkers);
    assert_eq!(command.target_worker, None);
    assert_eq!(state, Status::Listing { id: command.id.clone() });
    assert_eq!(state.report(true), None);
}

#[test]
fn status_is_asked_of_running_workers_only() {
    let step = fanned_out(three_workers());
    assert_eq!(step.commands.len(), 2);
    let targets: Vec<Option<u32>> = step.commands.iter().map(|c| c.target_worker).collect();
    assert_eq!(targets, vec![Some(0), Some(2)]);
    for command in &step.commands {
        assert_eq!(command.kind, CommandKind::ProxyConfiguration(Order::Status));
        assert!(command.id.starts_with("ID-"));
        assert_eq!(command.id.len(), 9);
    }
    assert_eq!(step.output, Output::Nothing);
    assert_eq!(step.flow, Flow::Wait);
    assert_ne!(step.commands[0].id, step.commands[1].id);
    match &step.state {
        Status::Collecting { workers, expecting, table } => {
            assert_eq!(workers, &three_workers());
            assert!(expecting.contains(&step.commands[0].id));
            assert!(expecting.contains(&step.commands[1].id));
            assert_eq!(
                table,
                &vec![
                    Pending { id: step.commands[0].id.clone(), worker: 0, status: AnswerStatus::Processing },
                    Pending { id: step.commands[1].id.clone(), worker: 2, status: AnswerStatus::Processing },
                ]
            );
        }
        other => panic!("unexpected state {:?}", other),
    }
}

#[test]
fn both_workers_answer_ok() {
    let step = fanned_out(three_workers());
    let first = step.commands[0].id.clone();
    let second = step.commands[1].id.clone();
    let step = step.state.step(Some(answer(&second, AnswerStatus::Done, "")));
    assert_eq!(step.flow, Flow::Wait);
    assert_eq!(step.output, Output::Nothing);
    let step = step.state.step(Some(answer(&first, AnswerStatus::Done, "")));
    assert_eq!(step.flow, Flow::Return);
    assert!(step.commands.is_empty());
    assert_eq!(
        step.state.report(true),
        Some(table(&[
            ["Worker", "pid", "run state", "answer"],
            ["0", "4001", "Running", "ok"],
            ["1", "4002", "Stopped", ""],
            ["2", "4003", "Running", "ok"],
        ]))
    );
}

#[test]
fn missing_answer_shows_as_timeout() {
    let step = fanned_out(three_workers());
    let first = step.commands[0].id.clone();
    let step = step.state.step(Some(answer(&first, AnswerStatus::Done, "")));
    assert_eq!(step.flow, Flow::Wait);
    assert_eq!(
        step.state.report(false),
        Some(table(&[
            ["Worker", "pid", "run state", "answer"],
            ["0", "4001", "Running", "ok"],
            ["1", "4002", "Stopped", ""],
            ["2", "4003", "Running", "timeout"],
        ]))
    );
}

#[test]
fn error_answer_is_shown_and_recorded() {
    let step = fanned_out(three_workers());
    let first = step.commands[0].id.clone();
    let second = step.commands[1].id.clone();
    let step = step.state.step(Some(answer(&first, AnswerStatus::Error, "overloaded")));
    assert_eq!(step.output, text(&format!("error for message[{}]: overloaded", first)));
    assert_eq!(step.flow, Flow::Wait);
    let step = step.state.step(Some(answer(&second, AnswerStatus::Processing, "")));
    assert_eq!(step.output, Output::Nothing);
    assert_eq!(step.flow, Flow::Wait);
    assert_eq!(
        step.state.report(false),
        Some(table(&[
            ["Worker", "pid", "run state", "answer"],
            ["0", "4001", "Running", "error"],
            ["1", "4002", "Stopped", ""],
            ["2", "4003", "Running", "timeout"],
        ]))
    );
}

#[test]
fn answer_to_another_command_is_recorded_for_no_worker() {
    let step = fanned_out(three_workers());
    let before = step.state.clone();
    let step = step.state.step(Some(answer("ID-stray1", AnswerStatus::Done, "")));
    assert_eq!(step.state, before);
    assert_eq!(step.flow, Flow::Wait);
    assert_eq!(step.output, Output::Nothing);
    let step = step.state.step(Some(answer("ID-stray2", AnswerStatus::Error, "late")));
    assert_eq!(step.state, before);
    assert_eq!(step.output, text("error for message[ID-stray2]: late"));
}

#[test]
fn second_terminal_answer_for_an_id_changes_nothing() {
    let step = fanned_out(three_workers());
    let first = step.commands[0].id.clone();
    let step = step.state.step(Some(answer(&first, AnswerStatus::Done, "")));
    let before = step.state.clone();
    let step = step.state.step(Some(answer(&first, AnswerStatus::Error, "again")));
    assert_eq!(step.state, before);
}

#[test]
fn silence_while_collecting_ends_the_poll() {
    let step = fanned_out(three_workers());
    let before = step.state.clone();
    let step = step.state.step(None);
    assert_eq!(step.state, before);
    assert_eq!(step.output, text("the proxy didn't answer"));
    assert_eq!(step.flow, Flow::Exit);
}

#[test]
fn no_running_worker_completes_at_once() {
    let workers = vec![Worker { id: 3, pid: -1, run_state: RunState::NotAnswering }];
    let step = fanned_out(workers);
    assert!(step.commands.is_empty());
    assert_eq!(step.flow, Flow::Return);
    assert_eq!(
        step.state.report(true),
        Some(table(&[["Worker", "pid", "run state", "answer"], ["3", "-1", "NotAnswering", ""]]))
    );
}

#[test]
fn listing_aborts_on_anything_but_the_list() {
    let cases: Vec<(Box<dyn Fn(&str) -> Option<Answer>>, Output, Flow)> = vec![
        (Box::new(|_| None), text("the proxy didn't answer"), Flow::Exit),
        (
            Box::new(|id| Some(answer(id, AnswerStatus::Processing, ""))),
            text("should have obtained an answer immediately"),
            Flow::Exit,
        ),
        (
            Box::new(|id| Some(answer(id, AnswerStatus::Error, "busy"))),
            text("could not get the worker list: busy"),
            Flow::Exit,
        ),
        (Box::new(|id| Some(answer(id, AnswerStatus::Done, ""))), Output::Nothing, Flow::Return),
        (
            Box::new(|_| Some(worker_list("ID-other1", three_workers()))),
            Output::InvalidAnswer(worker_list("ID-other1", three_workers())),
            Flow::Exit,
        ),
    ];
    for (event, output, flow) in cases {
        let (state, first) = status();
        let step = state.step(event(&first.id));
        assert_eq!(step.state, Status::Listing { id: first.id.clone() });
        assert!(step.commands.is_empty());
        assert_eq!(step.output, output);
        assert_eq!(step.flow, flow);
    }
}

#[test]
fn report_without_collected_data() {
    let workers = three_workers();
    assert_eq!(
        status_report(&workers, None, false),
        table(&[
            ["Worker", "pid", "run state", "answer"],
            ["0", "4001", "Running", "timeout"],
            ["1", "4002", "Stopped", ""],
            ["2", "4003", "Running", "timeout"],
        ])
    );
    assert_eq!(
        status_report(&workers, None, true),
        table(&[
            ["Worker", "pid", "run state", "answer"],
            ["0", "4001", "Running", ""],
            ["1", "4002", "Stopped", ""],
            ["2", "4003", "Running", ""],
        ])
    );
}

#[test]
fn report_of_entries_still_processing() {
    let workers = three_workers();
    let collected = vec![
        Pending { id: "ID-a".to_string(), worker: 2, status: AnswerStatus::Processing },
        Pending { id: "ID-b".to_string(), worker: 0, status: AnswerStatus::Error },
    ];
    assert_eq!(
        status_report(&workers, Some(&collected), true),
        table(&[
            ["Worker", "pid", "run state", "answer"],
            ["0", "4001", "Running", "error"],
            ["1", "4002", "Stopped", ""],
            ["2", "4003", "Running", "processing"],
        ])
    );
}

#[test]
fn report_takes_the_first_entry_of_a_worker() {
    let workers = vec![Worker { id: 8, pid: 1, run_state: RunState::Running }];
    let collected = vec![
        Pending { id: "ID-a".to_string(), worker: 8, status: AnswerStatus::Done },
        Pending { id: "ID-b".to_string(), worker: 8, status: AnswerStatus::Error },
    ];
    assert_eq!(
        status_report(&workers, Some(&collected), true),
        table(&[["Worker", "pid", "run state", "answer"], ["8", "1", "Running", "ok"]])
    );
}

#[test]
fn report_of_no_workers_is_the_header() {
    assert_eq!(status_report(&vec![], None, true), table(&[["Worker", "pid", "run state", "answer"]]));
}

#[test]
fn run_state_names() {
    assert_eq!(run_state_text(RunState::Running), "Running");
    assert_eq!(run_state_text(RunState::Stopping), "Stopping");
    assert_eq!(run_state_text(RunState::Stopped), "Stopped");
    assert_eq!(run_state_text(RunState::NotAnswering), "NotAnswering");
}

#[test]
fn answers_count_in_any_order_and_after_processing() {
    let step = fanned_out(three_workers());
    let first = step.commands[0].id.clone();
    let second = step.commands[1].id.clone();
    let events = vec![
        answer(&second, AnswerStatus::Processing, "busy"),
        answer("ID-stray0", AnswerStatus::Done, ""),
        answer(&first, AnswerStatus::Processing, "busy"),
        answer(&second, AnswerStatus::Done, ""),
        answer(&first, AnswerStatus::Processing, "still busy"),
        answer(&first, AnswerStatus::Done, ""),
    ];
    let mut state = step.state;
    let mut flow = step.flow;
    for event in events {
        assert_eq!(flow, Flow::Wait);
        let next = state.step(Some(event));
        assert!(next.commands.is_empty());
        state = next.state;
        flow = next.flow;
    }
    assert_eq!(flow, Flow::Return);
    assert_eq!(
        state.report(true),
        Some(table(&[
            ["Worker", "pid", "run state", "answer"],
            ["0", "4001", "Running", "ok"],
            ["1", "4002", "Stopped", ""],
            ["2", "4003", "Running", "ok"],
        ]))
    );
}

#[test]
fn first_terminal_answer_counts() {
    let step = fanned_out(three_workers());
    let second = step.commands[1].id.clone();
    let step = step.state.step(Some(answer(&second, AnswerStatus::Error, "down")));
    let step = step.state.step(Some(answer(&second, AnswerStatus::Done, "late")));
    assert_eq!(step.flow, Flow::Wait);
    assert_eq!(
        step.state.report(false),
        Some(table(&[
            ["Worker", "pid", "run state", "answer"],
            ["0", "4001", "Running", "timeout"],
            ["1", "4002", "Stopped", ""],
            ["2", "4003", "Running", "error"],
        ]))
    );
}
