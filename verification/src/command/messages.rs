//! Vocabulary of the control channel: commands, orders, answers and what
//! answers carry.

use vstd::prelude::*;

verus! {

/// An application to route to.
#[derive(Debug, Clone, PartialEq, Eq)]
pub struct Application {
    pub app_id: String,
    pub sticky_session: bool,
}

/// An application, as a value.
pub struct ApplicationView {
    pub app_id: Seq<char>,
    pub sticky_session: bool,
}

impl View for Application {
    type V = ApplicationView;

    open spec fn view(&self) -> ApplicationView {
        ApplicationView { app_id: self.app_id@, sticky_session: self.sticky_session }
    }
}

/// A plain HTTP front: requests for `hostname` under `path_begin` go to the
/// application.
#[derive(Debug, Clone, PartialEq, Eq)]
pub struct HttpFront {
    pub app_id: String,
    pub hostname: String,
    pub path_begin: String,
}

/// An HTTP front, as a value.
pub struct HttpFrontView {
    pub app_id: Seq<char>,
    pub hostname: Seq<char>,
    pub path_begin: Seq<char>,
}

impl View for HttpFront {
    type V = HttpFrontView;

    open spec fn view(&self) -> HttpFrontView {
        HttpFrontView { app_id: self.app_id@, hostname: self.hostname@, path_begin: self.path_begin@ }
    }
}

/// Fingerprint of a certificate, as computed from its bytes.
#[derive(Debug, Clone, PartialEq, Eq)]
pub struct CertFingerprint(pub Vec<u8>);

impl View for CertFingerprint {
    type V = Seq<u8>;

    open spec fn view(&self) -> Seq<u8> {
        self.0@
    }
}

/// An HTTPS front, served with the certificate of the given fingerprint.
#[derive(Debug, Clone, PartialEq, Eq)]
pub struct HttpsFront {
    pub app_id: String,
    pub hostname: String,
    pub path_begin: String,
    pub fingerprint: CertFingerprint,
}

/// An HTTPS front, as a value.
pub struct HttpsFrontView {
    pub app_id: Seq<char>,
    pub hostname: Seq<char>,
    pub path_begin: Seq<char>,
    pub fingerprint: Seq<u8>,
}

impl View for HttpsFront {
    type V = HttpsFrontView;

    open spec fn view(&self) -> HttpsFrontView {
        HttpsFrontView {
            app_id: self.app_id@,
            hostname: self.hostname@,
            path_begin: self.path_begin@,
            fingerprint: self.fingerprint@,
        }
    }
}

/// A TCP front: connections to the address go to the application.
#[derive(Debug, Clone, PartialEq, Eq)]
pub struct TcpFront {
    pub app_id: String,
    pub ip_address: String,
    pub port: u16,
}

/// A TCP front, as a value.
pub struct TcpFrontView {
    pub app_id: Seq<char>,
    pub ip_address: Seq<char>,
    pub port: u16,
}

impl View for TcpFront {
    type V = TcpFrontView;

    open spec fn view(&self) -> TcpFrontView {
        TcpFrontView { app_id: self.app_id@, ip_address: self.ip_address@, port: self.port }
    }
}

/// One backend server of an application.
#[derive(Debug, Clone, PartialEq, Eq)]
pub struct Instance {
    pub app_id: String,
    pub instance_id: String,
    pub ip_address: String,
    pub port: u16,
}

/// A backend server, as a value.
pub struct InstanceView {
    pub app_id: Seq<char>,
    pub instance_id: Seq<char>,
    pub ip_address: Seq<char>,
    pub port: u16,
}

impl View for Instance {
    type V = InstanceView;

    open spec fn view(&self) -> InstanceView {
        InstanceView {
            app_id: self.app_id@,
            instance_id: self.instance_id@,
            ip_address: self.ip_address@,
            port: self.port,
        }
    }
}

/// A certificate with its chain, leaf side first, and its private key.
#[derive(Debug, Clone, PartialEq, Eq)]
pub struct CertificateAndKey {
    pub certificate: String,
    pub certificate_chain: Vec<String>,
    pub key: String,
}

/// A certificate with chain and key, as a value.
pub struct CertificateAndKeyView {
    pub certificate: Seq<char>,
    pub certificate_chain: Seq<Seq<char>>,
    pub key: Seq<char>,
}

/// The texts of a sequence of strings.
pub open spec fn texts(strings: Seq<String>) -> Seq<Seq<char>> {
    strings.map_values(|s: String| s@)
}

impl View for CertificateAndKey {
    type V = CertificateAndKeyView;

    open spec fn view(&self) -> CertificateAndKeyView {
        CertificateAndKeyView {
            certificate: self.certificate@,
            certificate_chain: texts(self.certificate_chain@),
            key: self.key@,
        }
    }
}

/// One change to the live configuration of the proxy.
#[derive(Debug, Clone, PartialEq, Eq)]
pub enum Order {
    AddApplication(Application),
    RemoveApplication(String),
    AddHttpFront(HttpFront),
    RemoveHttpFront(HttpFront),
    AddHttpsFront(HttpsFront),
    RemoveHttpsFront(HttpsFront),
    AddTcpFront(TcpFront),
    RemoveTcpFront(TcpFront),
    AddInstance(Instance),
    RemoveInstance(Instance),
    AddCertificate(CertificateAndKey),
    RemoveCertificate(CertFingerprint),
    SoftStop,
    HardStop,
    Status,
    Logging(String),
}

/// An order, as a value. Two orders are the same order where their values
/// are equal.
pub enum OrderView {
    AddApplication(ApplicationView),
    RemoveApplication(Seq<char>),
    AddHttpFront(HttpFrontView),
    RemoveHttpFront(HttpFrontView),
    AddHttpsFront(HttpsFrontView),
    RemoveHttpsFront(HttpsFrontView),
    AddTcpFront(TcpFrontView),
    RemoveTcpFront(TcpFrontView),
    AddInstance(InstanceView),
    RemoveInstance(InstanceView),
    AddCertificate(CertificateAndKeyView),
    RemoveCertificate(Seq<u8>),
    SoftStop,
    HardStop,
    Status,
    Logging(Seq<char>),
}

impl View for Order {
    type V = OrderView;

    open spec fn view(&self) -> OrderView {
        match self {
            Order::AddApplication(a) => OrderView::AddApplication(a@),
            Order::RemoveApplication(a) => OrderView::RemoveApplication(a@),
            Order::AddHttpFront(f) => OrderView::AddHttpFront(f@),
            Order::RemoveHttpFront(f) => OrderView::RemoveHttpFront(f@),
            Order::AddHttpsFront(f) => OrderView::AddHttpsFront(f@),
            Order::RemoveHttpsFront(f) => OrderView::RemoveHttpsFront(f@),
            Order::AddTcpFront(f) => OrderView::AddTcpFront(f@),
            Order::RemoveTcpFront(f) => OrderView::RemoveTcpFront(f@),
            Order::AddInstance(i) => OrderView::AddInstance(i@),
            Order::RemoveInstance(i) => OrderView::RemoveInstance(i@),
            Order::AddCertificate(c) => OrderView::AddCertificate(c@),
            Order::RemoveCertificate(f) => OrderView::RemoveCertificate(f@),
            Order::SoftStop => OrderView::SoftStop,
            Order::HardStop => OrderView::HardStop,
            Order::Status => OrderView::Status,
            Order::Logging(f) => OrderView::Logging(f@),
        }
    }
}

/// What a query asks about.
#[derive(Debug, Clone, PartialEq, Eq)]
pub enum QueryKind {
    Applications,
    Application(String),
}

/// The subject of a query, as a value.
pub enum QueryKindView {
    Applications,
    Application(Seq<char>),
}

impl View for QueryKind {
    type V = QueryKindView;

    open spec fn view(&self) -> QueryKindView {
        match self {
            QueryKind::Applications => QueryKindView::Applications,
            QueryKind::Application(a) => QueryKindView::Application(a@),
        }
    }
}

/// What a command asks of the supervising process.
#[derive(Debug, Clone, PartialEq, Eq)]
pub enum CommandKind {
    ProxyConfiguration(Order),
    SaveState(String),
    LoadState(String),
    DumpState,
    ListWorkers,
    LaunchWorker(String),
    UpgradeMaster,
    Query(QueryKind),
    Metrics,
    LoggingFilter(String),
}

/// The kind of a command, as a value.
pub enum CommandKindView {
    ProxyConfiguration(OrderView),
    SaveState(Seq<char>),
    LoadState(Seq<char>),
    DumpState,
    ListWorkers,
    LaunchWorker(Seq<char>),
    UpgradeMaster,
    Query(QueryKindView),
    Metrics,
    LoggingFilter(Seq<char>),
}

impl View for CommandKind {
    type V = CommandKindView;

    open spec fn view(&self) -> CommandKindView {
        match self {
            CommandKind::ProxyConfiguration(o) => CommandKindView::ProxyConfiguration(o@),
            CommandKind::SaveState(p) => CommandKindView::SaveState(p@),
            CommandKind::LoadState(p) => CommandKindView::LoadState(p@),
            CommandKind::DumpState => CommandKindView::DumpState,
            CommandKind::ListWorkers => CommandKindView::ListWorkers,
            CommandKind::LaunchWorker(t) => CommandKindView::LaunchWorker(t@),
            CommandKind::UpgradeMaster => CommandKindView::UpgradeMaster,
            CommandKind::Query(q) => CommandKindView::Query(q@),
            CommandKind::Metrics => CommandKindView::Metrics,
            CommandKind::LoggingFilter(f) => CommandKindView::LoggingFilter(f@),
        }
    }
}

/// A request on the control channel. Answers are matched to it by `id`.
#[derive(Debug, Clone, PartialEq, Eq)]
pub struct Command {
    pub id: String,
    pub kind: CommandKind,
    pub target_worker: Option<u32>,
}

/// A command, as a value.
pub struct CommandView {
    pub id: Seq<char>,
    pub kind: CommandKindView,
    pub target_worker: Option<u32>,
}

impl View for Command {
    type V = CommandView;

    open spec fn view(&self) -> CommandView {
        CommandView { id: self.id@, kind: self.kind@, target_worker: self.target_worker }
    }
}

impl Command {
    /// A command with the given id, kind and target.
    pub fn new(id: String, kind: CommandKind, target_worker: Option<u32>) -> (res: Command)
        ensures
            res@ == (CommandView { id: id@, kind: kind@, target_worker }),
            res.id == id,
            res.kind == kind,
    {
        Command { id, kind, target_worker }
    }
}

/// State of a command as reported by an answer: `Processing` is
/// informational, `Error` and `Done` are terminal.
#[derive(Debug, Clone, Copy, PartialEq, Eq, Structural)]
pub enum AnswerStatus {
    Processing,
    Error,
    Done,
}

impl AnswerStatus {
    /// Whether an answer of this status concludes its command.
    pub open spec fn is_terminal(self) -> bool {
        self != AnswerStatus::Processing
    }

    /// Whether an answer of this status concludes its command.
    pub fn terminal(&self) -> (res: bool)
        ensures
            res == self.is_terminal(),
    {
        match self {
            AnswerStatus::Processing => false,
            AnswerStatus::Error => true,
            AnswerStatus::Done => true,
        }
    }
}

/// Life cycle of a worker process.
#[derive(Debug, Clone, Copy, PartialEq, Eq, Structural)]
pub enum RunState {
    Running,
    Stopping,
    Stopped,
    NotAnswering,
}

/// A worker process, as listed by the supervising process.
#[derive(Debug, Clone, Copy, PartialEq, Eq, Structural)]
pub struct Worker {
    pub id: u32,
    pub pid: i32,
    pub run_state: RunState,
}

/// A value of a proxy-level counter.
#[derive(Debug, Clone, Copy, PartialEq, Eq, Structural)]
pub enum FilteredData {
    Gauge(usize),
    Count(i64),
    Time(usize),
}

/// Latency percentiles of a set of samples.
#[derive(Debug, Clone, Copy, PartialEq, Eq, Structural)]
pub struct Percentiles {
    pub samples: u64,
    pub p_50: u64,
    pub p_90: u64,
    pub p_99: u64,
    pub p_99_9: u64,
    pub p_99_99: u64,
    pub p_99_999: u64,
    pub p_100: u64,
}

/// Traffic and latency of one backend.
#[derive(Debug, Clone, Copy, PartialEq, Eq, Structural)]
pub struct BackendMetrics {
    pub bytes_out: usize,
    pub bytes_in: usize,
    pub percentiles: Percentiles,
}

/// A value under a key of a metrics snapshot.
#[derive(Debug, Clone, PartialEq, Eq)]
pub struct Entry<V> {
    pub key: String,
    pub value: V,
}

impl<V> View for Entry<V> {
    type V = (Seq<char>, V);

    open spec fn view(&self) -> (Seq<char>, V) {
        (self.key@, self.value)
    }
}

/// The keyed values of a sequence of entries.
pub open spec fn entries<V>(list: Seq<Entry<V>>) -> Seq<(Seq<char>, V)> {
    list.map_values(|e: Entry<V>| e@)
}

/// Metrics snapshot of one process. Each list holds the entries of a map in
/// the order in which the map was walked.
#[derive(Debug, Clone, PartialEq, Eq)]
pub struct WorkerMetrics {
    pub proxy: Vec<Entry<FilteredData>>,
    pub applications: Vec<Entry<Percentiles>>,
    pub backends: Vec<Entry<BackendMetrics>>,
}

/// A metrics snapshot, as a value.
pub struct WorkerMetricsView {
    pub proxy: Seq<(Seq<char>, FilteredData)>,
    pub applications: Seq<(Seq<char>, Percentiles)>,
    pub backends: Seq<(Seq<char>, BackendMetrics)>,
}

impl View for WorkerMetrics {
    type V = WorkerMetricsView;

    open spec fn view(&self) -> WorkerMetricsView {
        WorkerMetricsView {
            proxy: entries(self.proxy@),
            applications: entries(self.applications@),
            backends: entries(self.backends@),
        }
    }
}

/// The snapshot of the process with the given tag. The supervising process
/// reports under the tag `master`.
#[derive(Debug, Clone, PartialEq, Eq)]
pub struct TaggedMetrics {
    pub tag: String,
    pub metrics: WorkerMetrics,
}

impl View for TaggedMetrics {
    type V = (Seq<char>, WorkerMetricsView);

    open spec fn view(&self) -> (Seq<char>, WorkerMetricsView) {
        (self.tag@, self.metrics@)
    }
}

/// The tagged snapshots of a sequence of processes.
pub open spec fn snapshots(list: Seq<TaggedMetrics>) -> Seq<(Seq<char>, WorkerMetricsView)> {
    list.map_values(|t: TaggedMetrics| t@)
}

/// What an answer carries besides its message. A state dump and a query
/// result are carried as text.
#[derive(Debug, Clone, PartialEq, Eq)]
pub enum AnswerPayload {
    Workers(Vec<Worker>),
    State(String),
    Metrics(Vec<TaggedMetrics>),
    Query(String),
}

/// What an answer carries, as a value.
pub enum AnswerPayloadView {
    Workers(Seq<Worker>),
    State(Seq<char>),
    Metrics(Seq<(Seq<char>, WorkerMetricsView)>),
    Query(Seq<char>),
}

impl View for AnswerPayload {
    type V = AnswerPayloadView;

    open spec fn view(&self) -> AnswerPayloadView {
        match self {
            AnswerPayload::Workers(w) => AnswerPayloadView::Workers(w@),
            AnswerPayload::State(s) => AnswerPayloadView::State(s@),
            AnswerPayload::Metrics(m) => AnswerPayloadView::Metrics(snapshots(m@)),
            AnswerPayload::Query(q) => AnswerPayloadView::Query(q@),
        }
    }
}

/// An answer on the control channel to the command of the same `id`.
#[derive(Debug, Clone, PartialEq, Eq)]
pub struct Answer {
    pub id: String,
    pub status: AnswerStatus,
    pub message: String,
    pub data: Option<AnswerPayload>,
}

/// An answer, as a value.
pub struct AnswerView {
    pub id: Seq<char>,
    pub status: AnswerStatus,
    pub message: Seq<char>,
    pub data: Option<AnswerPayloadView>,
}

impl View for Answer {
    type V = AnswerView;

    open spec fn view(&self) -> AnswerView {
        AnswerView {
            id: self.id@,
            status: self.status,
            message: self.message@,
            data: match self.data {
                Some(d) => Some(d@),
                None => None,
            },
        }
    }
}

/// The commands of a sequence, as values.
pub open spec fn command_views(commands: Seq<Command>) -> Seq<CommandView> {
    commands.map_values(|c: Command| c@)
}

/// The identifiers of a sequence of commands.
pub open spec fn ids_of(commands: Seq<CommandView>) -> Set<Seq<char>> {
    Set::new(|id: Seq<char>| exists|i: int| 0 <= i < commands.len() && #[trigger] commands[i].id == id)
}

/// The identifiers of a sequence with one more command are those of the
/// sequence and that of the command.
pub proof fn lemma_ids_of_push(commands: Seq<CommandView>, command: CommandView)
    ensures
        ids_of(commands.push(command)) == ids_of(commands).insert(command.id),
{
    let longer = commands.push(command);
    assert forall|id: Seq<char>| ids_of(longer).contains(id) <==> ids_of(commands).insert(
        command.id,
    ).contains(id) by {
        if ids_of(longer).contains(id) {
            let k = choose|k: int| 0 <= k < longer.len() && #[trigger] longer[k].id == id;
            if k < commands.len() {
                assert(commands[k].id == id);
            }
        }
        if ids_of(commands).contains(id) {
            let k = choose|k: int| 0 <= k < commands.len() && #[trigger] commands[k].id == id;
            assert(longer[k].id == id);
        }
        if id == command.id {
            assert(longer[commands.len() as int].id == id);
        }
    }
    assert(ids_of(longer) =~= ids_of(commands).insert(command.id));
}

/// Whether no two commands of the sequence have the same identifier.
pub open spec fn distinct_ids(commands: Seq<CommandView>) -> bool {
    forall|i: int, j: int|
        0 <= i < j < commands.len() ==> (#[trigger] commands[i]).id != (#[trigger] commands[j]).id
}

/// A command under an identifier that none of the commands has keeps the
/// identifiers distinct.
pub proof fn lemma_distinct_push(commands: Seq<CommandView>, command: CommandView)
    requires
        distinct_ids(commands),
        !ids_of(commands).contains(command.id),
    ensures
        distinct_ids(commands.push(command)),
{
    let longer = commands.push(command);
    assert forall|i: int, j: int| 0 <= i < j < longer.len() implies (#[trigger] longer[i]).id != (
        #[trigger] longer[j]).id by {
        if j == commands.len() {
            assert(commands[i].id == longer[i].id);
            assert(ids_of(commands).contains(commands[i].id));
        } else {
            assert(longer[i] == commands[i]);
            assert(longer[j] == commands[j]);
        }
    }
}

/// The workers of a list that are running, in the order of the list.
pub open spec fn running_workers(workers: Seq<Worker>) -> Seq<Worker>
    decreases workers.len(),
{
    if workers.len() == 0 {
        Seq::empty()
    } else if workers.last().run_state == RunState::Running {
        running_workers(workers.drop_last()).push(workers.last())
    } else {
        running_workers(workers.drop_last())
    }
}

/// The running workers of a list, in its order.
pub fn select_running(workers: &Vec<Worker>) -> (res: Vec<Worker>)
    ensures
        res@ == running_workers(workers@),
{
    let mut res: Vec<Worker> = Vec::new();
    let mut i: usize = 0;
    while i < workers.len()
        invariant
            i <= workers.len(),
            res@ == running_workers(workers@.take(i as int)),
        decreases workers.len() - i,
    {
        assert(workers@.take(i + 1).drop_last() =~= workers@.take(i as int));
        if workers[i].run_state == RunState::Running {
            res.push(workers[i]);
        }
        i += 1;
    }
    assert(workers@.take(workers.len() as int) =~= workers@);
    res
}

} // verus!
