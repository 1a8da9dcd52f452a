//! One command and the answers to it: what each answer means for the
//! operation that sent the command.
//!
//! An operation of this kind sends one command and then hands every event on
//! the channel to [`Exchange::react`] until the reaction tells it to stop.

use vstd::prelude::*;
use vstd::string::*;
use crate::command::messages::{
    Answer, AnswerPayload, AnswerPayloadView, AnswerStatus, AnswerView, Command, CommandKind,
    CommandView,
};
use crate::command::metrics::{metrics_report, report_of, MetricsReport, MetricsReportView};

verus! {

/// What an event on the channel is to a command that is in flight.
#[derive(Debug, Clone, Copy, PartialEq, Eq, Structural)]
pub enum Verdict {
    /// No answer was there to read.
    Silence,
    /// An answer to another command.
    Mismatch,
    /// The command is being processed.
    Progress,
    /// The command failed.
    Failure,
    /// The command succeeded.
    Success,
}

/// An event on the channel, as a value: an answer, or none.
pub open spec fn event_view(event: Option<Answer>) -> Option<AnswerView> {
    match event {
        Some(answer) => Some(answer@),
        None => None,
    }
}

/// The verdict on an event for the command with the identifier `expected`.
/// The identifier is looked at first: an answer to another command is a
/// mismatch whatever its status.
pub open spec fn verdict(expected: Seq<char>, event: Option<AnswerView>) -> Verdict {
    match event {
        None => Verdict::Silence,
        Some(answer) => if answer.id != expected {
            Verdict::Mismatch
        } else {
            match answer.status {
                AnswerStatus::Processing => Verdict::Progress,
                AnswerStatus::Error => Verdict::Failure,
                AnswerStatus::Done => Verdict::Success,
            }
        },
    }
}

/// Classifies an event for the command with the identifier `expected`.
pub fn classify(expected: &String, event: &Option<Answer>) -> (res: Verdict)
    ensures
        res == verdict(expected@, event_view(*event)),
{
    match event {
        None => Verdict::Silence,
        Some(answer) => {
            if !(answer.id == *expected) {
                Verdict::Mismatch
            } else {
                match answer.status {
                    AnswerStatus::Processing => Verdict::Progress,
                    AnswerStatus::Error => Verdict::Failure,
                    AnswerStatus::Done => Verdict::Success,
                }
            }
        },
    }
}

/// The status with which the process ends where an operation asks for it.
pub const EXIT_STATUS: i32 = 1;

/// What the caller does after an event.
#[derive(Debug, Clone, Copy, PartialEq, Eq, Structural)]
pub enum Flow {
    /// Read the next event and hand it in.
    Wait,
    /// The operation is over.
    Return,
    /// The operation is over and the process ends with `EXIT_STATUS`.
    Exit,
}

/// What the caller shows after an event.
#[derive(Debug, Clone, PartialEq, Eq)]
pub enum Output {
    Nothing,
    /// A line of text.
    Line(String),
    /// An answer that belongs to another command.
    InvalidAnswer(Answer),
    /// A dump of the proxy's state.
    State(String),
    /// The answer to a query.
    QueryAnswer { message: String, data: Option<AnswerPayload> },
    /// The tables of a metrics answer.
    Metrics(MetricsReport),
}

/// What is shown, as a value.
pub enum OutputView {
    Nothing,
    Line(Seq<char>),
    InvalidAnswer(AnswerView),
    State(Seq<char>),
    QueryAnswer { message: Seq<char>, data: Option<AnswerPayloadView> },
    Metrics(MetricsReportView),
}

impl View for Output {
    type V = OutputView;

    open spec fn view(&self) -> OutputView {
        match self {
            Output::Nothing => OutputView::Nothing,
            Output::Line(l) => OutputView::Line(l@),
            Output::InvalidAnswer(a) => OutputView::InvalidAnswer(a@),
            Output::State(s) => OutputView::State(s@),
            Output::QueryAnswer { message, data } => OutputView::QueryAnswer {
                message: message@,
                data: match data {
                    Some(d) => Some(d@),
                    None => None,
                },
            },
            Output::Metrics(r) => OutputView::Metrics(r@),
        }
    }
}

/// What to show and what to do after an event.
#[derive(Debug, Clone, PartialEq, Eq)]
pub struct Reaction {
    pub output: Output,
    pub flow: Flow,
}

/// A reaction, as a value.
pub struct ReactionView {
    pub output: OutputView,
    pub flow: Flow,
}

impl View for Reaction {
    type V = ReactionView;

    open spec fn view(&self) -> ReactionView {
        ReactionView { output: self.output@, flow: self.flow }
    }
}

/// What a command was sent for. It decides how its answers are reported.
#[derive(Debug, Clone, PartialEq, Eq)]
pub enum Purpose {
    SaveState,
    /// Loading the state from the given path.
    LoadState(String),
    DumpState,
    /// Stopping the proxy, softly or hard.
    Stop,
    /// A change to the configuration.
    Order,
    Query,
    Metrics,
}

/// A purpose, as a value.
pub enum PurposeView {
    SaveState,
    LoadState(Seq<char>),
    DumpState,
    Stop,
    Order,
    Query,
    Metrics,
}

impl View for Purpose {
    type V = PurposeView;

    open spec fn view(&self) -> PurposeView {
        match self {
            Purpose::SaveState => PurposeView::SaveState,
            Purpose::LoadState(p) => PurposeView::LoadState(p@),
            Purpose::DumpState => PurposeView::DumpState,
            Purpose::Stop => PurposeView::Stop,
            Purpose::Order => PurposeView::Order,
            Purpose::Query => PurposeView::Query,
            Purpose::Metrics => PurposeView::Metrics,
        }
    }
}

impl PurposeView {
    /// Whether the operation goes on waiting after silence and after a
    /// failure.
    pub open spec fn persistent(self) -> bool {
        self is Stop || self is Metrics
    }

    /// Whether an answer to another command ends the process.
    pub open spec fn exits_on_mismatch(self) -> bool {
        self is SaveState || self is LoadState || self is DumpState
    }

    /// What stands before the message of a failure.
    pub open spec fn failure_prefix(self) -> Seq<char> {
        match self {
            PurposeView::SaveState => "could not save proxy state: "@,
            PurposeView::LoadState(_) => "could not load proxy state: "@,
            PurposeView::DumpState => "could not dump proxy state: "@,
            PurposeView::Stop => "could not stop the proxy: "@,
            PurposeView::Order => "could not execute order: "@,
            PurposeView::Query => "could not query proxy state: "@,
            PurposeView::Metrics => "could not stop the proxy: "@,
        }
    }
}

/// The reaction to silence.
pub open spec fn on_silence(purpose: PurposeView) -> ReactionView {
    ReactionView {
        output: OutputView::Line("the proxy didn't answer"@),
        flow: if purpose.persistent() {
            Flow::Wait
        } else {
            Flow::Exit
        },
    }
}

/// The reaction to an answer to another command: the operation is
/// abandoned, and nothing is reported but that answer.
pub open spec fn on_mismatch(purpose: PurposeView, answer: AnswerView) -> ReactionView {
    ReactionView {
        output: OutputView::InvalidAnswer(answer),
        flow: if purpose.exits_on_mismatch() {
            Flow::Exit
        } else {
            Flow::Return
        },
    }
}

/// The reaction to an answer that says the command is being processed: the
/// operation goes on waiting.
pub open spec fn on_progress(purpose: PurposeView, answer: AnswerView) -> ReactionView {
    ReactionView {
        output: if purpose.persistent() {
            OutputView::Line("Proxy is processing: "@ + answer.message)
        } else {
            OutputView::Nothing
        },
        flow: Flow::Wait,
    }
}

/// The reaction to the failure of the command.
pub open spec fn on_failure(purpose: PurposeView, answer: AnswerView) -> ReactionView {
    ReactionView {
        output: OutputView::Line(purpose.failure_prefix() + answer.message),
        flow: if purpose.persistent() {
            Flow::Wait
        } else {
            Flow::Exit
        },
    }
}

/// The reaction to the success of the command.
pub open spec fn on_success(purpose: PurposeView, answer: AnswerView) -> ReactionView {
    match purpose {
        PurposeView::SaveState => ReactionView {
            output: OutputView::Line(answer.message),
            flow: Flow::Return,
        },
        PurposeView::LoadState(path) => ReactionView {
            output: OutputView::Line("Proxy state loaded successfully from "@ + path),
            flow: Flow::Return,
        },
        PurposeView::DumpState => match answer.data {
            Some(AnswerPayloadView::State(state)) => ReactionView {
                output: OutputView::State(state),
                flow: Flow::Return,
            },
            _ => ReactionView {
                output: OutputView::Line("state dump was empty"@),
                flow: Flow::Exit,
            },
        },
        PurposeView::Stop => ReactionView {
            output: OutputView::Line("Proxy shut down: "@ + answer.message),
            flow: Flow::Return,
        },
        PurposeView::Order => ReactionView { output: OutputView::Nothing, flow: Flow::Return },
        PurposeView::Query => ReactionView {
            output: OutputView::QueryAnswer { message: answer.message, data: answer.data },
            flow: Flow::Return,
        },
        PurposeView::Metrics => match answer.data {
            Some(AnswerPayloadView::Metrics(data)) => ReactionView {
                output: OutputView::Metrics(report_of(data)),
                flow: Flow::Return,
            },
            _ => ReactionView { output: OutputView::Nothing, flow: Flow::Wait },
        },
    }
}

/// The reaction of an operation with the given purpose, whose command has
/// the identifier `id`, to an event.
pub open spec fn reaction(purpose: PurposeView, id: Seq<char>, event: Option<AnswerView>) -> ReactionView {
    match verdict(id, event) {
        Verdict::Silence => on_silence(purpose),
        Verdict::Mismatch => on_mismatch(purpose, event->0),
        Verdict::Progress => on_progress(purpose, event->0),
        Verdict::Failure => on_failure(purpose, event->0),
        Verdict::Success => on_success(purpose, event->0),
    }
}

/// A line made of a fixed beginning and a text.
pub fn prefixed_line(beginning: &str, text: &String) -> (res: Output)
    ensures
        res@ == OutputView::Line(beginning@ + text@),
{
    let mut l = String::from_str(beginning);
    l.append(text.as_str());
    Output::Line(l)
}

/// A line of fixed text.
pub fn fixed_line(text: &str) -> (res: Output)
    ensures
        res@ == OutputView::Line(text@),
{
    Output::Line(String::from_str(text))
}

/// The line that reports the failure of one of several commands in flight.
pub fn failure_line(answer: &Answer) -> (res: Output)
    ensures
        res@ == OutputView::Line("error for message["@ + answer.id@ + "]: "@ + answer.message@),
{
    let mut l = String::from_str("error for message[");
    l.append(answer.id.as_str());
    l.append("]: ");
    l.append(answer.message.as_str());
    Output::Line(l)
}

impl Purpose {
    /// Whether the operation goes on waiting after silence and after a
    /// failure.
    pub fn persistent(&self) -> (res: bool)
        ensures
            res == self@.persistent(),
    {
        match self {
            Purpose::Stop => true,
            Purpose::Metrics => true,
            _ => false,
        }
    }

    /// Whether an answer to another command ends the process.
    pub fn exits_on_mismatch(&self) -> (res: bool)
        ensures
            res == self@.exits_on_mismatch(),
    {
        match self {
            Purpose::SaveState => true,
            Purpose::LoadState(_) => true,
            Purpose::DumpState => true,
            _ => false,
        }
    }

    /// What stands before the message of a failure.
    pub fn failure_prefix(&self) -> (res: &'static str)
        ensures
            res@ == self@.failure_prefix(),
    {
        match self {
            Purpose::SaveState => "could not save proxy state: ",
            Purpose::LoadState(_) => "could not load proxy state: ",
            Purpose::DumpState => "could not dump proxy state: ",
            Purpose::Stop => "could not stop the proxy: ",
            Purpose::Order => "could not execute order: ",
            Purpose::Query => "could not query proxy state: ",
            Purpose::Metrics => "could not stop the proxy: ",
        }
    }
}

/// A command that was sent, and what it was sent for.
#[derive(Debug, Clone, PartialEq, Eq)]
pub struct Exchange {
    pub command: Command,
    pub purpose: Purpose,
}

impl Exchange {
    /// The exchange of a command of the given identifier and kind, sent to
    /// no worker in particular.
    pub fn new(id: String, kind: CommandKind, purpose: Purpose) -> (res: Exchange)
        ensures
            res.command@ == (CommandView { id: id@, kind: kind@, target_worker: None }),
            res.purpose == purpose,
    {
        Exchange { command: Command::new(id, kind, None), purpose }
    }

    /// The line to show before the command is sent, if any.
    pub fn announcement(&self) -> (res: Option<String>)
        ensures
            self.purpose is Stop ==> res is Some && res->0@ == "shutting down proxy"@,
            !(self.purpose is Stop) ==> res is None,
    {
        match self.purpose {
            Purpose::Stop => Some(String::from_str("shutting down proxy")),
            _ => None,
        }
    }

    fn succeed(&self, answer: Answer) -> (res: Reaction)
        ensures
            res@ == on_success(self.purpose@, answer@),
    {
        match &self.purpose {
            Purpose::SaveState => Reaction { output: Output::Line(answer.message), flow: Flow::Return },
            Purpose::LoadState(path) => Reaction {
                output: prefixed_line("Proxy state loaded successfully from ", path),
                flow: Flow::Return,
            },
            Purpose::DumpState => match answer.data {
                Some(AnswerPayload::State(state)) => Reaction {
                    output: Output::State(state),
                    flow: Flow::Return,
                },
                _ => Reaction { output: fixed_line("state dump was empty"), flow: Flow::Exit },
            },
            Purpose::Stop => Reaction {
                output: prefixed_line("Proxy shut down: ", &answer.message),
                flow: Flow::Return,
            },
            Purpose::Order => Reaction { output: Output::Nothing, flow: Flow::Return },
            Purpose::Query => Reaction {
                output: Output::QueryAnswer { message: answer.message, data: answer.data },
                flow: Flow::Return,
            },
            Purpose::Metrics => match answer.data {
                Some(AnswerPayload::Metrics(data)) => Reaction {
                    output: Output::Metrics(metrics_report(&data)),
                    flow: Flow::Return,
                },
                _ => Reaction { output: Output::Nothing, flow: Flow::Wait },
            },
        }
    }

    /// What an event on the channel means for this operation.
    ///
    /// An answer to another command ends the operation, whatever its
    /// status. An answer that reports processing never ends it. Silence and
    /// a failure end the operations that wait for one terminal answer, and
    /// the process with them; stopping the proxy and reading the metrics go
    /// on waiting.
    pub fn react(&self, event: Option<Answer>) -> (res: Reaction)
        ensures
            res@ == reaction(self.purpose@, self.command.id@, event_view(event)),
    {
        let verdict = classify(&self.command.id, &event);
        match event {
            None => Reaction {
                output: fixed_line("the proxy didn't answer"),
                flow: if self.purpose.persistent() {
                    Flow::Wait
                } else {
                    Flow::Exit
                },
            },
            Some(answer) => match verdict {
                Verdict::Mismatch => Reaction {
                    output: Output::InvalidAnswer(answer),
                    flow: if self.purpose.exits_on_mismatch() {
                        Flow::Exit
                    } else {
                        Flow::Return
                    },
                },
                Verdict::Progress => Reaction {
                    output: if self.purpose.persistent() {
                        prefixed_line("Proxy is processing: ", &answer.message)
                    } else {
                        Output::Nothing
                    },
                    flow: Flow::Wait,
                },
                Verdict::Failure => Reaction {
                    output: prefixed_line(self.purpose.failure_prefix(), &answer.message),
                    flow: if self.purpose.persistent() {
                        Flow::Wait
                    } else {
                        Flow::Exit
                    },
                },
                _ => self.succeed(answer),
            },
        }
    }
}

/// An answer to another command ends an operation at once: the caller stops
/// reading, and what is reported is that answer alone, so neither the
/// success nor the failure of the command in flight is concluded from it.
pub proof fn lemma_mismatch_aborts(purpose: PurposeView, id: Seq<char>, answer: AnswerView)
    requires
        answer.id != id,
    ensures
        reaction(purpose, id, Some(answer)).flow != Flow::Wait,
        reaction(purpose, id, Some(answer)).output == OutputView::InvalidAnswer(answer),
{
}

/// An answer that reports processing never ends an operation, however
/// often it comes.
pub proof fn lemma_processing_never_concludes(purpose: PurposeView, id: Seq<char>, answer: AnswerView)
    requires
        answer.id == id,
        answer.status == AnswerStatus::Processing,
    ensures
        reaction(purpose, id, Some(answer)).flow == Flow::Wait,
{
}

/// The reaction that ends an operation when the events are handed to it one
/// after the other: the first that does not ask to go on waiting, if there
/// is one.
pub open spec fn conclusion(
    purpose: PurposeView,
    id: Seq<char>,
    events: Seq<Option<AnswerView>>,
) -> Option<ReactionView>
    decreases events.len(),
{
    if events.len() == 0 {
        None
    } else if reaction(purpose, id, events.first()).flow != Flow::Wait {
        Some(reaction(purpose, id, events.first()))
    } else {
        conclusion(purpose, id, events.drop_first())
    }
}

/// Whether the event is an answer to the command under `id` that reports
/// processing.
pub open spec fn is_progress(id: Seq<char>, event: Option<AnswerView>) -> bool {
    verdict(id, event) == Verdict::Progress
}

/// Answers that report processing are passed over, however many come
/// before the one that ends the operation: the conclusion is that of the
/// events that follow them.
pub proof fn lemma_leading_processing_is_skipped(
    purpose: PurposeView,
    id: Seq<char>,
    events: Seq<Option<AnswerView>>,
    k: int,
)
    requires
        0 <= k <= events.len(),
        forall|i: int| 0 <= i < k ==> is_progress(id, #[trigger] events[i]),
    ensures
        conclusion(purpose, id, events) == conclusion(purpose, id, events.skip(k)),
    decreases k,
{
    if k == 0 {
        assert(events.skip(0) =~= events);
    } else {
        let rest = events.drop_first();
        assert(is_progress(id, events[0]));
        assert forall|i: int| 0 <= i < k - 1 implies is_progress(id, #[trigger] rest[i]) by {
            assert(rest[i] == events[i + 1]);
        }
        lemma_leading_processing_is_skipped(purpose, id, rest, k - 1);
        assert(rest.skip(k - 1) =~= events.skip(k));
    }
}

} // verus!
