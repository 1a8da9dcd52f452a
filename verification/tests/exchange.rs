use sozu_core::command::exchange::{
    classify, failure_line, fixed_line, prefixed_line, Exchange, Flow, Output, Purpose, Reaction, Verdict,
    EXIT_STATUS,
};
use sozu_core::command::messages::{
    Answer, AnswerPayload, AnswerStatus, Command, CommandKind, Entry, FilteredData, TaggedMetrics,
    Worker, WorkerMetrics, RunState,
};
use sozu_core::command::metrics::metrics_report;

fn answer(id: &str, status: AnswerStatus, message: &str) -> Answer {
    Answer { id: id.to_string(), status, message: message.to_string(), data: None }
}

fn exchange(purpose: Purpose) -> Exchange {
    Exchange::new("ID-abc123".to_string(), CommandKind::DumpState, purpose)
}

fn purposes() -> Vec<Purpose> {
    vec![
        Purpose::SaveState,
        Purpose::LoadState("/tmp/state.json".to_string()),
        Purpose::DumpState,
        Purpose::Stop,
        Purpose::Order,
        Purpose::Query,
        Purpose::Metrics,
    ]
}

fn text(line: &str) -> Output {
    Output::Line(line.to_string())
}

#[test]
fn classify_silence() {
    assert_eq!(classify(&"ID-1".to_string(), &None), Verdict::Silence);
}

#[test]
fn classify_by_status_when_the_id_matches() {
    let id = "ID-abc123".to_string();
    assert_eq!(classify(&id, &Some(answer("ID-abc123", AnswerStatus::Processing, ""))), Verdict::Progress);
    assert_eq!(classify(&id, &Some(answer("ID-abc123", AnswerStatus::Error, ""))), Verdict::Failure);
    assert_eq!(classify(&id, &Some(answer("ID-abc123", AnswerStatus::Done, ""))), Verdict::Success);
}

#[test]
fn classify_mismatch_whatever_the_status() {
    let id = "ID-abc123".to_string();
    for status in [AnswerStatus::Processing, AnswerStatus::Error, AnswerStatus::Done] {
        assert_eq!(classify(&id, &Some(answer("ID-abc124", status, ""))), Verdict::Mismatch);
        assert_eq!(classify(&id, &Some(answer("", status, ""))), Verdict::Mismatch);
        assert_eq!(classify(&id, &Some(answer("ID-abc12", status, ""))), Verdict::Mismatch);
    }
}

#[test]
fn terminal_statuses() {
    assert!(!AnswerStatus::Processing.terminal());
    assert!(AnswerStatus::Error.terminal());
    assert!(AnswerStatus::Done.terminal());
}

#[test]
fn new_exchange_targets_no_worker() {
    let e = Exchange::new("ID-1".to_string(), CommandKind::Metrics, Purpose::Metrics);
    assert_eq!(e.command, Command { id: "ID-1".to_string(), kind: CommandKind::Metrics, target_worker: None });
    assert_eq!(e.purpose, Purpose::Metrics);
}

#[test]
fn mismatched_terminal_answer_aborts_every_operation() {
    for purpose in purposes() {
        for status in [AnswerStatus::Error, AnswerStatus::Done, AnswerStatus::Processing] {
            let stray = Answer {
                id: "ID-zzzzzz".to_string(),
                status,
                message: "saved".to_string(),
                data: Some(AnswerPayload::State("state".to_string())),
            };
            let reaction = exchange(purpose.clone()).react(Some(stray.clone()));
            assert_eq!(reaction.output, Output::InvalidAnswer(stray));
            assert_ne!(reaction.flow, Flow::Wait);
        }
    }
}

#[test]
fn mismatch_exits_only_for_state_operations() {
    let stray = answer("ID-other1", AnswerStatus::Done, "");
    let flows: Vec<Flow> =
        purposes().into_iter().map(|p| exchange(p).react(Some(stray.clone())).flow).collect();
    assert_eq!(
        flows,
        vec![Flow::Exit, Flow::Exit, Flow::Exit, Flow::Return, Flow::Return, Flow::Return, Flow::Return]
    );
}

#[test]
fn silence_ends_single_shot_operations() {
    for purpose in [
        Purpose::SaveState,
        Purpose::LoadState("p".to_string()),
        Purpose::DumpState,
        Purpose::Order,
        Purpose::Query,
    ] {
        assert_eq!(
            exchange(purpose).react(None),
            Reaction { output: text("the proxy didn't answer"), flow: Flow::Exit }
        );
    }
}

#[test]
fn silence_keeps_persistent_operations_waiting() {
    for purpose in [Purpose::Stop, Purpose::Metrics] {
        assert_eq!(
            exchange(purpose).react(None),
            Reaction { output: text("the proxy didn't answer"), flow: Flow::Wait }
        );
    }
}

#[test]
fn processing_never_concludes() {
    for purpose in purposes() {
        let e = exchange(purpose);
        for _ in 0..3 {
            let reaction = e.react(Some(answer("ID-abc123", AnswerStatus::Processing, "working")));
            assert_eq!(reaction.flow, Flow::Wait);
        }
    }
}

#[test]
fn processing_is_shown_by_persistent_operations_only() {
    let processing = answer("ID-abc123", AnswerStatus::Processing, "working");
    assert_eq!(exchange(Purpose::SaveState).react(Some(processing.clone())).output, Output::Nothing);
    assert_eq!(exchange(Purpose::Order).react(Some(processing.clone())).output, Output::Nothing);
    assert_eq!(
        exchange(Purpose::Stop).react(Some(processing.clone())).output,
        text("Proxy is processing: working")
    );
    assert_eq!(
        exchange(Purpose::Metrics).react(Some(processing)).output,
        text("Proxy is processing: working")
    );
}

#[test]
fn failure_reports_the_message() {
    let failed = answer("ID-abc123", AnswerStatus::Error, "disk full");
    let expected = vec![
        (Purpose::SaveState, "could not save proxy state: disk full", Flow::Exit),
        (Purpose::LoadState("p".to_string()), "could not load proxy state: disk full", Flow::Exit),
        (Purpose::DumpState, "could not dump proxy state: disk full", Flow::Exit),
        (Purpose::Stop, "could not stop the proxy: disk full", Flow::Wait),
        (Purpose::Order, "could not execute order: disk full", Flow::Exit),
        (Purpose::Query, "could not query proxy state: disk full", Flow::Exit),
        (Purpose::Metrics, "could not stop the proxy: disk full", Flow::Wait),
    ];
    for (purpose, shown, flow) in expected {
        assert_eq!(
            exchange(purpose).react(Some(failed.clone())),
            Reaction { output: text(shown), flow }
        );
    }
}

#[test]
fn save_state_success_shows_the_message() {
    let done = answer("ID-abc123", AnswerStatus::Done, "saved 3 orders to /tmp/state.json");
    assert_eq!(
        exchange(Purpose::SaveState).react(Some(done)),
        Reaction { output: text("saved 3 orders to /tmp/state.json"), flow: Flow::Return }
    );
}

#[test]
fn load_state_success_names_the_path() {
    let done = answer("ID-abc123", AnswerStatus::Done, "ok");
    assert_eq!(
        exchange(Purpose::LoadState("/tmp/state.json".to_string())).react(Some(done)),
        Reaction {
            output: text("Proxy state loaded successfully from /tmp/state.json"),
            flow: Flow::Return
        }
    );
}

#[test]
fn dump_state_success_shows_the_state() {
    let mut done = answer("ID-abc123", AnswerStatus::Done, "");
    done.data = Some(AnswerPayload::State("{ applications: [] }".to_string()));
    assert_eq!(
        exchange(Purpose::DumpState).react(Some(done)),
        Reaction { output: Output::State("{ applications: [] }".to_string()), flow: Flow::Return }
    );
}

#[test]
fn dump_state_without_state_fails() {
    let done = answer("ID-abc123", AnswerStatus::Done, "");
    assert_eq!(
        exchange(Purpose::DumpState).react(Some(done)),
        Reaction { output: text("state dump was empty"), flow: Flow::Exit }
    );
    let mut other = answer("ID-abc123", AnswerStatus::Done, "");
    other.data = Some(AnswerPayload::Workers(vec![Worker { id: 0, pid: 1, run_state: RunState::Running }]));
    assert_eq!(
        exchange(Purpose::DumpState).react(Some(other)),
        Reaction { output: text("state dump was empty"), flow: Flow::Exit }
    );
}

#[test]
fn stop_success_ends_the_operation() {
    let done = answer("ID-abc123", AnswerStatus::Done, "bye");
    assert_eq!(
        exchange(Purpose::Stop).react(Some(done)),
        Reaction { output: text("Proxy shut down: bye"), flow: Flow::Return }
    );
}

#[test]
fn order_success_is_silent() {
    let done = answer("ID-abc123", AnswerStatus::Done, "added");
    assert_eq!(
        exchange(Purpose::Order).react(Some(done)),
        Reaction { output: Output::Nothing, flow: Flow::Return }
    );
}

#[test]
fn query_success_hands_on_message_and_data() {
    let mut done = answer("ID-abc123", AnswerStatus::Done, "one application");
    done.data = Some(AnswerPayload::Query("app_1".to_string()));
    assert_eq!(
        exchange(Purpose::Query).react(Some(done)),
        Reaction {
            output: Output::QueryAnswer {
                message: "one application".to_string(),
                data: Some(AnswerPayload::Query("app_1".to_string())),
            },
            flow: Flow::Return
        }
    );
}

#[test]
fn metrics_success_makes_the_tables() {
    let data = vec![TaggedMetrics {
        tag: "0".to_string(),
        metrics: WorkerMetrics {
            proxy: vec![Entry { key: "requests".to_string(), value: FilteredData::Count(12) }],
            applications: vec![],
            backends: vec![],
        },
    }];
    let mut done = answer("ID-abc123", AnswerStatus::Done, "");
    done.data = Some(AnswerPayload::Metrics(data.clone()));
    assert_eq!(
        exchange(Purpose::Metrics).react(Some(done)),
        Reaction { output: Output::Metrics(metrics_report(&data)), flow: Flow::Return }
    );
}

#[test]
fn metrics_success_without_metrics_keeps_waiting() {
    let done = answer("ID-abc123", AnswerStatus::Done, "");
    assert_eq!(
        exchange(Purpose::Metrics).react(Some(done)),
        Reaction { output: Output::Nothing, flow: Flow::Wait }
    );
}

#[test]
fn only_stopping_is_announced() {
    assert_eq!(exchange(Purpose::Stop).announcement(), Some("shutting down proxy".to_string()));
    for purpose in purposes() {
        if purpose != Purpose::Stop {
            assert_eq!(exchange(purpose).announcement(), None);
        }
    }
}

#[test]
fn purpose_predicates() {
    let persistent: Vec<bool> = purposes().iter().map(|p| p.persistent()).collect();
    assert_eq!(persistent, vec![false, false, false, true, false, false, true]);
    let exits: Vec<bool> = purposes().iter().map(|p| p.exits_on_mismatch()).collect();
    assert_eq!(exits, vec![true, true, true, false, false, false, false]);
    assert_eq!(Purpose::Order.failure_prefix(), "could not execute order: ");
}

#[test]
fn lines() {
    assert_eq!(prefixed_line("could not load key: ", &"no such file".to_string()), text("could not load key: no such file"));
    assert_eq!(prefixed_line("", &"".to_string()), text(""));
    assert_eq!(fixed_line("worker upgrade done"), text("worker upgrade done"));
    assert_eq!(
        failure_line(&answer("ID-q", AnswerStatus::Error, "refused")),
        text("error for message[ID-q]: refused")
    );
}

#[test]
fn exit_status_is_not_zero() {
    assert_eq!(EXIT_STATUS, 1);
}
